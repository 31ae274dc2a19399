//! The command line a phase is relaunched with.
use vstd::prelude::*;
use crate::text::{chars_of, string_of};

verus! {

/// The command-line flag the application is relaunched with between update
/// phases; the serialized update state follows it.
pub const RESUME_FLAG: &'static str = "--update-resume-internal";

/// Extra command-line arguments and environment variables which every
/// relaunched update process receives, after the resume flag and state.
#[derive(Debug, Default)]
pub struct Relaunch {
    pub args: Vec<String>,
    pub envs: Vec<(String, String)>,
}

pub open spec fn texts(v: Seq<String>) -> Seq<Seq<char>> {
    v.map_values(|s: String| s@)
}

pub open spec fn pair_texts(v: Seq<(String, String)>) -> Seq<(Seq<char>, Seq<char>)> {
    v.map_values(|e: (String, String)| (e.0@, e.1@))
}

/// What a relaunch runs the application with: its arguments, and the
/// environment variables set on the new process.
#[derive(Debug)]
pub struct RelaunchCommand {
    pub args: Vec<String>,
    pub envs: Vec<(String, String)>,
}

/// The arguments of a relaunch: the resume flag, the serialized state, then
/// the extra arguments in their order.
pub fn resume_arguments(state_json: &str, customization: &Relaunch) -> (r: Vec<String>)
    ensures
        texts(r@) == seq![RESUME_FLAG@, state_json@] + texts(customization.args@),
{
    let mut out: Vec<String> = Vec::new();
    out.push(string_of(chars_of(RESUME_FLAG).as_slice()));
    out.push(string_of(chars_of(state_json).as_slice()));
    let mut i: usize = 0;
    while i < customization.args.len()
        invariant
            i <= customization.args.len(),
            out@.len() == i + 2,
            out@[0]@ == RESUME_FLAG@,
            out@[1]@ == state_json@,
            forall|j: int| 0 <= j < i ==> #[trigger] out@[j + 2]@ == customization.args@[j]@,
        decreases customization.args.len() - i,
    {
        out.push(customization.args[i].clone());
        i = i + 1;
    }
    assert forall|j: int| 0 <= j < out@.len() implies #[trigger] texts(out@)[j] == (seq![
        RESUME_FLAG@,
        state_json@,
    ] + texts(customization.args@))[j] by {
        if j >= 2 {
            assert(out@[(j - 2) + 2]@ == customization.args@[j - 2]@);
        }
    }
    assert(texts(out@) =~= seq![RESUME_FLAG@, state_json@] + texts(customization.args@));
    out
}

/// The command line of a relaunch: the resume flag, the serialized state and
/// the extra arguments, with exactly the extra environment variables, in
/// their order.
pub fn relaunch_command(state_json: &str, customization: &Relaunch) -> (c: RelaunchCommand)
    ensures
        texts(c.args@) == seq![RESUME_FLAG@, state_json@] + texts(customization.args@),
        pair_texts(c.envs@) == pair_texts(customization.envs@),
{
    let args = resume_arguments(state_json, customization);
    let mut envs: Vec<(String, String)> = Vec::new();
    let mut i: usize = 0;
    while i < customization.envs.len()
        invariant
            i <= customization.envs.len(),
            envs@.len() == i,
            forall|j: int|
                0 <= j < i ==> #[trigger] envs@[j].0@ == customization.envs@[j].0@
                    && envs@[j].1@ == customization.envs@[j].1@,
        decreases customization.envs.len() - i,
    {
        let name = customization.envs[i].0.clone();
        let value = customization.envs[i].1.clone();
        envs.push((name, value));
        i = i + 1;
    }
    assert(pair_texts(envs@) =~= pair_texts(customization.envs@));
    RelaunchCommand { args, envs }
}

} // verus!
