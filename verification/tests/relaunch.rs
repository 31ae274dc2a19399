use update_rs::relaunch::{relaunch_command, resume_arguments};
use update_rs::{Relaunch, RESUME_FLAG};

#[test]
fn launch_threads_custom_args_and_env_after_the_resume_flag() {
    let customization = Relaunch {
        args: vec!["--trace-context".into(), "ctx-json".into()],
        envs: vec![("APP_UPDATING".into(), "1".into())],
    };
    let cmd = relaunch_command("{\"phase\":\"replace\"}", &customization);

    // The library's resume flag and serialized state always come first, then
    // the consumer's extra arguments, in order.
    assert_eq!(cmd.args[0], RESUME_FLAG);
    assert_eq!(cmd.args[1], "{\"phase\":\"replace\"}");
    assert_eq!(&cmd.args[2..], &["--trace-context", "ctx-json"]);

    assert!(
        cmd.envs.contains(&("APP_UPDATING".to_string(), "1".to_string())),
        "custom environment variable should be set on the relaunch: {:?}",
        cmd.envs
    );
}

#[test]
fn launch_without_customization_only_passes_the_resume_flag() {
    let cmd = relaunch_command("{\"phase\":\"cleanup\"}", &Relaunch::default());
    assert_eq!(cmd.args.len(), 2, "only the resume flag and state: {:?}", cmd.args);
    assert_eq!(cmd.args[0], RESUME_FLAG);
    assert_eq!(cmd.envs.len(), 0, "no custom environment variables");
}

#[test]
fn relaunch_keeps_every_variable_in_order() {
    let customization = Relaunch {
        args: vec![],
        envs: vec![("B".into(), "2".into()), ("A".into(), "1".into())],
    };
    let cmd = relaunch_command("{}", &customization);
    assert_eq!(
        cmd.envs,
        vec![("B".to_string(), "2".to_string()), ("A".to_string(), "1".to_string())]
    );
    assert_eq!(cmd.args, vec![RESUME_FLAG.to_string(), "{}".to_string()]);
}

#[test]
fn resume_arguments_put_the_flag_first() {
    let customization = Relaunch {
        args: vec!["-v".into()],
        envs: vec![],
    };
    assert_eq!(
        resume_arguments("{\"phase\":\"prepare\"}", &customization),
        vec![RESUME_FLAG.to_string(), "{\"phase\":\"prepare\"}".to_string(), "-v".to_string()]
    );
}

#[test]
fn resume_flag_is_the_documented_one() {
    // The guide tells applications to look for this flag in their arguments.
    assert_eq!(RESUME_FLAG, "--update-resume-internal");
}
