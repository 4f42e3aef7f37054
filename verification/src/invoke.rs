//! The function invocation adapter.
//!
//! `invoke(context, dotted_name, args)` resolves a callable by a dotted
//! path: the name splits on `.`, the walk starts at the global object and
//! requires every intermediate value to be an object, the final segment
//! must be callable, the host arguments convert element-wise, and the
//! zero-argument call is a distinguished fast path. The walk itself asks
//! the engine one lookup per segment; the functions here make every
//! decision between those lookups and build the exact error messages.

use vstd::prelude::*;
use vstd::string::StrSliceExecFns;
use vstd::string::StringExecFns;

use crate::value::BridgedValue;
use crate::value::HostValue;
use crate::value::bridged_model_seq;
use crate::value::host_model_seq;
use crate::value::lemma_bridged_model_seq;
use crate::value::lemma_host_model_seq;
use crate::value::lemma_to_script_model_seq;
use crate::value::to_script;
use crate::value::to_script_model;
use crate::value::to_script_model_seq;

verus! {

// ---------------------------------------------------------------------------
// Splitting the dotted name.
// ---------------------------------------------------------------------------
/// Index of the first `.` in `s`, or `s.len()` if there is none.
pub open spec fn first_dot(s: Seq<char>) -> nat
    decreases s.len(),
{
    if s.len() == 0 {
        0
    } else if s[0] == '.' {
        0
    } else {
        1 + first_dot(s.drop_first())
    }
}

pub proof fn lemma_first_dot_le(s: Seq<char>)
    ensures
        first_dot(s) <= s.len(),
    decreases s.len(),
{
    if s.len() > 0 && s[0] != '.' {
        lemma_first_dot_le(s.drop_first());
    }
}

/// The segments of `s` split on `.`: what precedes the first dot, then
/// the split of what follows it. A name without dots is one segment; a
/// dot at the edge or two in a row give an empty segment, as the host's
/// own split does.
pub open spec fn split_model(s: Seq<char>) -> Seq<Seq<char>>
    decreases s.len(),
    via split_model_dec
{
    if first_dot(s) == s.len() {
        seq![s]
    } else {
        seq![s.take(first_dot(s) as int)] + split_model(s.skip(first_dot(s) + 1 as int))
    }
}

#[via_fn]
proof fn split_model_dec(s: Seq<char>) {
    lemma_first_dot_le(s);
}

/// `first_dot` is the position of the first dot: no dot lies before `k`,
/// and `k` is a dot or the end.
pub proof fn lemma_first_dot_at(t: Seq<char>, k: int)
    requires
        0 <= k <= t.len(),
        forall|j: int| 0 <= j < k ==> t[j] != '.',
        k < t.len() ==> t[k] == '.',
    ensures
        first_dot(t) == k,
    decreases k,
{
    if k == 0 {
        if t.len() > 0 {
            assert(t[0] == '.');
        }
    } else {
        assert(t[0] != '.');
        let t2 = t.drop_first();
        assert forall|j: int| 0 <= j < k - 1 implies t2[j] != '.' by {
            assert(t2[j] == t[j + 1]);
        }
        if k - 1 < t2.len() {
            assert(t2[k - 1] == t[k]);
        }
        lemma_first_dot_at(t2, k - 1);
    }
}

/// A sequence of strings, viewed as their character sequences.
pub open spec fn strings_model(s: Seq<String>) -> Seq<Seq<char>>
    decreases s,
{
    if s.len() == 0 {
        Seq::empty()
    } else {
        strings_model(s.drop_last()).push(s.last()@)
    }
}

pub proof fn lemma_strings_model(s: Seq<String>)
    ensures
        strings_model(s).len() == s.len(),
        forall|i: int| 0 <= i < s.len() ==> strings_model(s)[i] == s[i]@,
    decreases s.len(),
{
    if s.len() > 0 {
        lemma_strings_model(s.drop_last());
    }
}

/// Splits a dotted name into its segments; there is always at least one.
pub fn split_dotted(name: &str) -> (parts: Vec<String>)
    ensures
        strings_model(parts@) == split_model(name@),
        parts@.len() >= 1,
{
    let ghost whole = name@;
    let n = name.unicode_len();
    let mut parts: Vec<String> = Vec::new();
    let mut start: usize = 0;
    let mut i: usize = 0;
    proof {
        assert(strings_model(parts@) =~= Seq::<Seq<char>>::empty());
        assert(whole.skip(0) =~= whole);
    }
    while i < n
        invariant
            n == whole.len(),
            whole == name@,
            start <= i <= n,
            forall|j: int| start <= j < i ==> whole[j] != '.',
            split_model(whole) == strings_model(parts@) + split_model(whole.skip(start as int)),
        decreases n - i,
    {
        let c = name.get_char(i);
        if c == '.' {
            let seg = name.substring_char(start, i);
            let seg_string = seg.to_owned();
            let ghost old_parts = parts@;
            parts.push(seg_string);
            proof {
                let t = whole.skip(start as int);
                assert forall|j: int| 0 <= j < i - start implies t[j] != '.' by {
                    assert(t[j] == whole[start + j]);
                }
                assert(t[i - start] == whole[i as int]);
                lemma_first_dot_at(t, i - start);
                assert(t.take(i - start) =~= whole.subrange(start as int, i as int));
                assert(t.skip(i - start + 1) =~= whole.skip(i + 1 as int));
                assert(split_model(t) == seq![whole.subrange(start as int, i as int)]
                    + split_model(whole.skip(i + 1 as int)));
                assert(parts@.drop_last() =~= old_parts);
                assert(strings_model(parts@) =~= strings_model(old_parts).push(seg@));
                assert(strings_model(old_parts).push(seg@) =~= strings_model(old_parts) + seq![
                    whole.subrange(start as int, i as int),
                ]);
                assert(strings_model(parts@) + split_model(whole.skip(i + 1 as int))
                    =~= strings_model(old_parts) + split_model(t));
            }
            start = i + 1;
        }
        i += 1;
    }
    let seg = name.substring_char(start, n);
    let seg_string = seg.to_owned();
    let ghost old_parts = parts@;
    parts.push(seg_string);
    proof {
        let t = whole.skip(start as int);
        assert forall|j: int| 0 <= j < n - start implies t[j] != '.' by {
            assert(t[j] == whole[start + j]);
        }
        lemma_first_dot_at(t, n - start);
        assert(t =~= whole.subrange(start as int, n as int));
        assert(split_model(t) == seq![t]);
        assert(parts@.drop_last() =~= old_parts);
        assert(strings_model(parts@) =~= strings_model(old_parts).push(seg@));
        assert(strings_model(parts@) =~= strings_model(old_parts) + seq![t]);
        assert(strings_model(parts@) =~= split_model(whole));
        lemma_strings_model(parts@);
    }
    parts
}

/// The resolution plan for one invocation: the intermediate segments to
/// walk from the global object, each of which must resolve to an object,
/// and the final segment that must resolve to a callable.
pub struct InvokePlan {
    pub prefix: Vec<String>,
    pub last: String,
}

/// Splits a dotted name into the walk prefix and the final segment.
pub fn plan_invoke(name: &str) -> (p: InvokePlan)
    ensures
        strings_model(p.prefix@) == split_model(name@).drop_last(),
        p.last@ == split_model(name@).last(),
{
    let mut parts = split_dotted(name);
    proof {
        lemma_strings_model(parts@);
    }
    let ghost before = parts@;
    let last = match parts.pop() {
        Some(s) => s,
        None => String::new(),
    };
    proof {
        assert(parts@ =~= before.drop_last());
        assert(strings_model(before.drop_last()) =~= strings_model(before).drop_last());
        lemma_strings_model(before);
        assert(last@ == strings_model(before).last());
    }
    InvokePlan { prefix: parts, last }
}

// ---------------------------------------------------------------------------
// The decisions between the engine lookups.
// ---------------------------------------------------------------------------
/// Why a dotted invocation was refused before anything was called.
#[derive(Debug, PartialEq, Eq)]
pub enum InvokeError {
    /// This path segment did not resolve to an object.
    NotAnObject(String),
    /// The full dotted name did not resolve to a callable.
    NotAFunction(String),
}

impl InvokeError {
    /// The message of the host exception this error surfaces as.
    pub fn message(&self) -> (m: String)
        ensures
            self matches InvokeError::NotAnObject(seg) ==> m@ == seg@ + " is not an object"@,
            self matches InvokeError::NotAFunction(name) ==> m@ == name@ + " is not a function"@,
    {
        match self {
            InvokeError::NotAnObject(seg) => {
                let mut m = seg.clone();
                m.append(" is not an object");
                m
            },
            InvokeError::NotAFunction(name) => {
                let mut m = name.clone();
                m.append(" is not a function");
                m
            },
        }
    }
}

/// Decides one intermediate step of the walk: the value the engine found
/// for `segment` must be an object, else the walk stops with the
/// not-an-object error naming that segment.
pub fn check_intermediate(segment: &String, found_is_object: bool) -> (r: Result<
    (),
    InvokeError,
>)
    ensures
        r is Ok <==> found_is_object,
        !found_is_object ==> (r matches Err(InvokeError::NotAnObject(s)) && s@ == segment@),
{
    if found_is_object {
        Ok(())
    } else {
        Err(InvokeError::NotAnObject(segment.clone()))
    }
}

/// Decides the final step: the value the full dotted name resolved to
/// must be callable, else the invocation fails with the not-a-function
/// error naming the full dotted name.
pub fn check_callable(dotted_name: &str, found_is_function: bool) -> (r: Result<
    (),
    InvokeError,
>)
    ensures
        r is Ok <==> found_is_function,
        !found_is_function ==> (r matches Err(InvokeError::NotAFunction(s)) && s@ == dotted_name@),
{
    if found_is_function {
        Ok(())
    } else {
        Err(InvokeError::NotAFunction(dotted_name.to_owned()))
    }
}

// ---------------------------------------------------------------------------
// Argument marshaling.
// ---------------------------------------------------------------------------
/// How a resolved callable is invoked: with no arguments at all — the
/// distinguished fast path — or with every host argument converted.
#[derive(Debug, PartialEq, Eq)]
pub enum CallShape {
    NoArgs,
    WithArgs(Vec<BridgedValue>),
}

/// Marshals a host argument list: empty lists take the no-argument fast
/// path, anything else converts element-wise in order.
pub fn plan_call(args: &Vec<HostValue>) -> (c: CallShape)
    ensures
        args@.len() == 0 ==> c is NoArgs,
        args@.len() > 0 ==> (c matches CallShape::WithArgs(bs) && bridged_model_seq(bs@)
            == to_script_model_seq(host_model_seq(args@))),
{
    if args.len() == 0 {
        CallShape::NoArgs
    } else {
        let mut out: Vec<BridgedValue> = Vec::new();
        let n = args.len();
        let mut i: usize = 0;
        while i < n
            invariant
                n == args@.len(),
                i <= n,
                out@.len() == i,
                forall|j: int| 0 <= j < i ==> (#[trigger] out@[j])@ == to_script_model(
                    args@[j]@,
                ),
            decreases n - i,
        {
            let b = to_script(&args[i]);
            out.push(b);
            i += 1;
        }
        proof {
            lemma_bridged_model_seq(out@);
            lemma_host_model_seq(args@);
            lemma_to_script_model_seq(host_model_seq(args@));
            assert(bridged_model_seq(out@) =~= to_script_model_seq(host_model_seq(args@)));
        }
        CallShape::WithArgs(out)
    }
}

} // verus!
