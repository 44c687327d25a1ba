//! The worker: it takes commands off a work queue.
use crate::text;
use crate::text::{concatenate, remove_all, split};
use vstd::prelude::*;

verus! {

/// The subject under which commands are queued.
pub const WORKER_SUBJECT: &'static str = "wasmcloud.internal.control_plane.workqueue";

/// The subject under which commands are queued, with the dot that a command follows.
pub const COMMAND_PREFIX: &'static str = "wasmcloud.internal.control_plane.workqueue.";

/// A consumer of a stream of commands.
#[derive(Debug, PartialEq, Eq)]
pub struct Worker {
    pub stream: String,
    pub consumer: ConsumerConfig,
    pub parallelism: u32,
}

/// How a worker consumes its stream: every message from the first on, as many at once as there
/// are, and each up to a number of times until it is acknowledged.
#[derive(Debug, PartialEq, Eq)]
pub struct ConsumerConfig {
    pub name: String,
    pub max_ack_pending: i64,
    pub max_deliver: i64,
    pub filter_subjects: Vec<String>,
}

/// What a command is about and what it asks for.
#[derive(Debug, PartialEq, Eq)]
pub struct Command {
    pub entity: String,
    pub action: String,
}

/// The tokens of the subject of a command behind the worker's own subject.
pub open spec fn command_tokens(subject: Seq<char>) -> Seq<Seq<char>> {
    text::split_on(text::without(subject, COMMAND_PREFIX@), '.')
}

impl Worker {
    /// A worker on a stream, of which it takes every subject.
    pub fn new(stream: String, consumer_name: String) -> (r: Worker)
        ensures
            r.stream@ == stream@,
            r.parallelism == 5,
            r.consumer.name@ == consumer_name@,
            r.consumer.max_ack_pending == -1,
            r.consumer.max_deliver == 10,
            r.consumer.filter_subjects.deep_view() == seq![stream@ + ".>"@],
    {
        let filter_subjects: Vec<String> = vec![concatenate(stream.as_str(), ".>")];
        assert(filter_subjects.deep_view() =~= seq![stream@ + ".>"@]);
        Worker {
            stream,
            consumer: ConsumerConfig {
                name: consumer_name,
                max_ack_pending: -1,
                max_deliver: 10,
                filter_subjects,
            },
            parallelism: 5,
        }
    }
}

/// The command in a subject.
pub fn command(subject: &str) -> (r: Command)
    requires
        command_tokens(subject@).len() >= 2,
    ensures
        r.entity@ == command_tokens(subject@)[0],
        r.action@ == command_tokens(subject@)[1],
{
    let rest = remove_all(subject, COMMAND_PREFIX);
    let tokens = split(rest.as_str(), '.');
    assert(tokens.deep_view().len() == tokens@.len());
    assert(tokens.deep_view()[0] == tokens@[0]@);
    assert(tokens.deep_view()[1] == tokens@[1]@);
    Command { entity: tokens[0].clone(), action: tokens[1].clone() }
}

/// What became of a command, given how its acknowledgement went.
pub fn acknowledged(outcome: Result<(), String>) -> (r: Result<(), String>)
    ensures
        match outcome {
            Ok(_) => r is Ok,
            Err(e) => r matches Err(text) && text@ == "Error double acking message: "@ + e@,
        },
{
    match outcome {
        Ok(_) => Ok(()),
        Err(e) => Err(concatenate("Error double acking message: ", e.as_str())),
    }
}

/// Nothing is removed from a text that does not contain what is to be removed.
proof fn without_absent(s: Seq<char>, pat: Seq<char>)
    requires
        forall|i: int|
            0 <= i <= s.len() - pat.len() ==> #[trigger] s.subrange(i, i + pat.len()) != pat,
    ensures
        text::without(s, pat) == s,
    decreases s.len(),
{
    if pat.len() == 0 || s.len() < pat.len() {
    } else {
        assert(s.take(pat.len() as int) =~= s.subrange(0, 0int + pat.len()));
        let rest = s.skip(1);
        assert forall|i: int| 0 <= i <= rest.len() - pat.len() implies #[trigger] rest.subrange(
            i,
            i + pat.len(),
        ) != pat by {
            assert(rest.subrange(i, i + pat.len()) =~= s.subrange(i + 1, (i + 1) + pat.len()));
        }
        without_absent(rest, pat);
        assert(seq![s[0]] + rest =~= s);
    }
}

/// The subject of a command, made of the worker's subject, an entity and an action that contain
/// no dot, is read as that entity and that action.
pub proof fn command_reads_back(entity: Seq<char>, action: Seq<char>)
    requires
        !entity.contains('.'),
        !action.contains('.'),
    ensures
        command_tokens(WORKER_SUBJECT@ + "."@ + entity + "."@ + action) == seq![entity, action],
{
    reveal_strlit("wasmcloud.internal.control_plane.workqueue");
    reveal_strlit("wasmcloud.internal.control_plane.workqueue.");
    reveal_strlit(".");
    let pat = COMMAND_PREFIX@;
    let rest = join_two(entity, action);
    let subject = WORKER_SUBJECT@ + "."@ + entity + "."@ + action;
    assert(subject.take(pat.len() as int) =~= pat);
    assert(subject.skip(pat.len() as int) =~= rest);
    assert forall|i: int| 0 <= i <= rest.len() - pat.len() implies #[trigger] rest.subrange(
        i,
        i + pat.len(),
    ) != pat by {
        let found = rest.subrange(i, i + pat.len());
        if found == pat {
            assert(found[9] == '.' && found[18] == '.');
            assert(rest[i + 9] == '.' && rest[i + 18] == '.');
            assert forall|j: int| 0 <= j < rest.len() && rest[j] == '.' implies j
                == entity.len() by {
                if j < entity.len() {
                    assert(entity.contains(entity[j]));
                } else if j > entity.len() {
                    assert(rest[j] == action[j - entity.len() - 1]);
                    assert(action.contains(action[j - entity.len() - 1]));
                }
            }
        }
    }
    without_absent(rest, pat);
    assert(text::without(subject, pat) == rest);
    text::split_at_separator(entity, action, '.');
    text::split_without_separator(entity, '.');
    text::split_without_separator(action, '.');
    assert(seq![entity] + seq![action] =~= seq![entity, action]);
}

/// An entity and an action with a dot between them.
spec fn join_two(entity: Seq<char>, action: Seq<char>) -> Seq<char> {
    entity.push('.') + action
}

} // verus!
