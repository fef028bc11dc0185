//! Parameters of one inference and the assembly of its output.

use vstd::prelude::*;
use crate::text::{join, joined, opt_text, texts};

verus! {

/// Threads to run inference on, for a machine with `cores` cores: all of
/// them up to four, three quarters up to eight, half beyond that but no
/// fewer than eight.
pub open spec fn thread_policy(cores: int) -> int {
    if 1 <= cores <= 4 {
        cores
    } else if 5 <= cores <= 8 {
        cores * 3 / 4
    } else if cores / 2 < 8 {
        8
    } else if cores / 2 > i32::MAX {
        i32::MAX as int
    } else {
        cores / 2
    }
}

/// Threads to run inference on, for a machine with `cores` cores.
pub fn optimal_threads(cores: usize) -> (threads: i32)
    ensures
        threads == thread_policy(cores as int),
        threads >= 1,
{
    if 1 <= cores && cores <= 4 {
        cores as i32
    } else if 5 <= cores && cores <= 8 {
        (cores * 3 / 4) as i32
    } else {
        let half = cores / 2;
        if half < 8 {
            8
        } else if half > i32::MAX as usize {
            i32::MAX
        } else {
            half as i32
        }
    }
}

/// Number of cores available to this process.
///
/// Trusted: calls `num_cpus::get`. The count depends on the machine, so
/// nothing is claimed of it.
#[verifier::external_body]
fn available_cores() -> (cores: usize) {
    num_cpus::get()
}

/// Threads to run inference on, on this machine.
pub fn inference_threads() -> (threads: i32)
    ensures
        exists|cores: int| 0 <= cores <= usize::MAX && threads == thread_policy(cores),
        threads >= 1,
{
    let cores = available_cores();
    optimal_threads(cores)
}

/// The phrase that biases recognition toward a vocabulary: its entries
/// separated by a comma and a space. An empty vocabulary gives none.
pub open spec fn prompt_for(vocabulary: Seq<Seq<char>>) -> Option<Seq<char>> {
    if vocabulary.len() == 0 {
        None
    } else {
        Some(joined(vocabulary, ", "@))
    }
}

/// Builds the phrase that biases recognition toward a vocabulary.
pub fn bias_prompt(vocabulary: &Vec<String>) -> (prompt: Option<String>)
    ensures
        opt_text(prompt) == prompt_for(texts(vocabulary@)),
{
    if vocabulary.len() == 0 {
        None
    } else {
        Some(join(vocabulary, ", "))
    }
}

/// The transcript of a recording: the texts of its segments, in order, with
/// nothing between them.
pub open spec fn transcript_of(segments: Seq<Seq<char>>) -> Seq<char> {
    joined(segments, Seq::empty())
}

/// Assembles the transcript from the texts of the segments.
pub fn assemble_transcript(segments: &Vec<String>) -> (text: String)
    ensures
        text@ == transcript_of(texts(segments@)),
{
    let text = join(segments, "");
    proof {
        reveal_strlit("");
        assert(""@ =~= Seq::<char>::empty());
    }
    text
}

} // verus!
