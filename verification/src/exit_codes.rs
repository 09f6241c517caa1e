//! The candidate exit statuses of a run, and the choice of one of them.

use crate::options::{is_signal, Opts, SIGNAL_BASE, SIGNAL_MAX, SIGNAL_MIN};
use crate::random::{choose_byte, random_byte};
use rand::rngs::ThreadRng;
use std::collections::HashSet;
use vstd::prelude::*;
use vstd::std_specs::hash::spec_hash_keys_iter;
use vstd::std_specs::iter::IteratorSpec;

verus! {

broadcast use vstd::std_specs::hash::group_hash_axioms;

/// The exit status that stands for a process ended by `signal`.
pub open spec fn signal_exit(signal: u8) -> int {
    SIGNAL_BASE + signal
}

/// The exit status of a process that `signal` ended: 128 plus the number.
pub fn signal_to_exit(signal: u8) -> (code: u8)
    requires
        signal <= u8::MAX - SIGNAL_BASE,
    ensures
        code == signal_exit(signal),
{
    SIGNAL_BASE + signal
}

/// Whether `now` holds what `base` held and the status of every signal below
/// `bound` that a flag of `opts` names, and nothing else.
spec fn flags_added(opts: Opts, base: Set<u8>, now: Set<u8>, bound: int) -> bool {
    forall|code: u8| #[trigger]
        now.contains(code) <==> base.contains(code) || (SIGNAL_BASE < code < SIGNAL_BASE + bound
            && opts.flag_raises((code - SIGNAL_BASE) as u8))
}

/// Adds to `codes` the exit status of every signal that `opts` names, by
/// number or by flag, and leaves what `codes` held in it.
pub fn add_signals(opts: Opts, codes: &mut HashSet<u8>)
    requires
        opts.wf(),
    ensures
        final(codes)@ == old(codes)@.union(opts.signal_codes()),
{
    let ghost before = codes@;
    let mut i: usize = 0;
    while i < opts.signal.len()
        invariant
            opts.wf(),
            i <= opts.signal@.len(),
            forall|code: u8| #[trigger]
                codes@.contains(code) <==> before.contains(code) || (code > SIGNAL_BASE
                    && exists|j: int| 0 <= j < i && #[trigger] opts.signal@[j] == code - SIGNAL_BASE),
        decreases opts.signal@.len() - i,
    {
        let signal: u8 = opts.signal[i];
        assert(is_signal(opts.signal@[i as int]));
        codes.insert(signal_to_exit(signal));
        i += 1;
    }
    let ghost numbered = codes@;
    proof {
        assert forall|code: u8| #[trigger]
            numbered.contains(code) <==> before.contains(code) || (code > SIGNAL_BASE
                && opts.signal@.contains((code - SIGNAL_BASE) as u8)) by {
            if code > SIGNAL_BASE && opts.signal@.contains((code - SIGNAL_BASE) as u8) {
                let j = choose|j: int|
                    0 <= j < opts.signal@.len() && opts.signal@[j] == (code - SIGNAL_BASE) as u8;
                assert(opts.signal@[j] == code - SIGNAL_BASE);
            }
        }
    }
    let mut signal: u8 = SIGNAL_MIN;
    while signal <= SIGNAL_MAX
        invariant
            SIGNAL_MIN <= signal <= SIGNAL_MAX + 1,
            flags_added(opts, numbered, codes@, signal as int),
        decreases SIGNAL_MAX + 1 - signal,
    {
        if opts.flag_raised(signal) {
            codes.insert(signal_to_exit(signal));
        }
        signal += 1;
    }
    assert(codes@ =~= before.union(opts.signal_codes()));
}

/// The candidate exit statuses of `opts`, each once, in no particular order.
/// The list is empty where `opts` names no code and no signal; `resolve`
/// then supplies the status to fall back on.
pub fn collect_exit_codes(opts: Opts) -> (codes: Vec<u8>)
    requires
        opts.wf(),
    ensures
        codes@.no_duplicates(),
        codes@.to_set() == opts.candidate_codes(),
{
    let mut set: HashSet<u8> = HashSet::new();
    let mut i: usize = 0;
    while i < opts.exit_codes.len()
        invariant
            i <= opts.exit_codes@.len(),
            set@ == opts.exit_codes@.take(i as int).to_set(),
        decreases opts.exit_codes@.len() - i,
    {
        set.insert(opts.exit_codes[i]);
        proof {
            let taken = opts.exit_codes@.take(i as int);
            assert(opts.exit_codes@.take(i + 1) == taken.push(opts.exit_codes@[i as int]));
            taken.lemma_push_to_set_commute(opts.exit_codes@[i as int]);
        }
        i += 1;
    }
    assert(opts.exit_codes@.take(opts.exit_codes@.len() as int) == opts.exit_codes@);
    let ghost candidates = opts.candidate_codes();
    add_signals(opts, &mut set);
    assert(set@ == candidates);
    let mut codes: Vec<u8> = Vec::new();
    let ghost walked = spec_hash_keys_iter(&set).remaining();
    for code in walk: set.iter()
        invariant
            walk.seq() == walked,
            codes@ =~= walked.take(walk.index()).unref(),
    {
        codes.push(*code);
    }
    proof {
        assert(codes@ =~= walked.unref());
        assert forall|i: int, j: int| 0 <= i < j < codes@.len() implies codes@[i] != codes@[j] by {
            assert(walked[i] != walked[j]);
        }
    }
    codes
}

/// The smallest status that may stand in for an empty candidate set.
pub const FALLBACK_MIN: u8 = 1;

/// The largest status that may stand in for an empty candidate set.
pub const FALLBACK_MAX: u8 = 255;

/// The list to choose from: `codes` itself, or `fallback` alone where `codes`
/// is empty.
pub fn with_fallback(codes: Vec<u8>, fallback: u8) -> (resolved: Vec<u8>)
    ensures
        resolved@ == if codes@.len() == 0 {
            seq![fallback]
        } else {
            codes@
        },
{
    let mut resolved = codes;
    if resolved.len() == 0 {
        resolved.push(fallback);
        assert(resolved@ =~= seq![fallback]);
    }
    resolved
}

/// The statuses that a run of `opts` may end with, each once.
///
/// Where `opts` names a code or a signal these are its candidates. Where it
/// names none, one status is drawn at random from 1 to 255 and stands alone,
/// so that a choice among the result never fails.
pub fn resolve(opts: Opts, rng: &mut ThreadRng) -> (codes: Vec<u8>)
    requires
        opts.wf(),
    ensures
        codes@.len() > 0,
        codes@.no_duplicates(),
        !opts.candidate_codes().is_empty() ==> codes@.to_set() == opts.candidate_codes(),
        opts.candidate_codes().is_empty() ==> codes@.len() == 1 && FALLBACK_MIN <= codes@[0]
            <= FALLBACK_MAX,
{
    let codes = collect_exit_codes(opts);
    proof {
        if codes@.len() > 0 {
            assert(codes@.to_set().contains(codes@[0]));
        } else {
            assert(codes@.to_set() =~= Set::<u8>::empty());
        }
    }
    if codes.is_empty() {
        let fallback: u8 = random_byte(rng, FALLBACK_MIN, FALLBACK_MAX);
        with_fallback(codes, fallback)
    } else {
        codes
    }
}

/// One of `codes`, chosen at random.
pub fn select_exit_code(codes: &Vec<u8>, rng: &mut ThreadRng) -> (code: u8)
    requires
        codes@.len() > 0,
    ensures
        codes@.contains(code),
{
    match choose_byte(rng, codes) {
        Some(code) => code,
        None => vstd::pervasive::unreached(),
    }
}

/// The exit status of a run of `opts`: one of its candidates, chosen at
/// random, or a random status from 1 to 255 where it has none.
pub fn choose_exit_code(opts: Opts, rng: &mut ThreadRng) -> (code: u8)
    requires
        opts.wf(),
    ensures
        !opts.candidate_codes().is_empty() ==> opts.candidate_codes().contains(code),
        opts.candidate_codes().is_empty() ==> FALLBACK_MIN <= code <= FALLBACK_MAX,
{
    let codes = resolve(opts, rng);
    let code: u8 = select_exit_code(&codes, rng);
    proof {
        let i = choose|i: int| 0 <= i < codes@.len() && codes@[i] == code;
        assert(codes@.to_set().contains(codes@[i]));
    }
    code
}

/// A status stands for a signal of the configuration exactly when it is 128
/// plus a signal that the configuration names.
pub proof fn lemma_signal_codes_are_offsets(opts: Opts, code: u8)
    requires
        opts.wf(),
    ensures
        opts.signal_codes().contains(code) <==> exists|signal: u8| #[trigger]
            opts.raises(signal) && code == signal_exit(signal),
{
    if opts.signal_codes().contains(code) {
        assert(opts.raises((code - SIGNAL_BASE) as u8));
    }
    if exists|signal: u8| #[trigger] opts.raises(signal) && code == signal_exit(signal) {
        let signal = choose|signal: u8| #[trigger]
            opts.raises(signal) && code == signal_exit(signal);
        assert(signal == (code - SIGNAL_BASE) as u8);
    }
}

/// Every candidate is an explicit code or the status of a named signal, and
/// each of those is a candidate.
pub proof fn lemma_candidates(opts: Opts, code: u8)
    requires
        opts.wf(),
    ensures
        opts.candidate_codes().contains(code) <==> opts.exit_codes@.contains(code) || exists|
            signal: u8,
        | #[trigger] opts.raises(signal) && code == signal_exit(signal),
{
    lemma_signal_codes_are_offsets(opts, code);
}

} // verus!
