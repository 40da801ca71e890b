//! The concurrent search: per-worker batch scanning, the shared one-shot
//! cancellation signal, the progress counter, and the coordinator that spawns
//! workers and collects the first winner.

use vstd::prelude::*;
use core::sync::atomic::AtomicBool;
use core::sync::atomic::AtomicUsize;
use std::io::Write;
use rayon::iter::IntoParallelIterator;
use rayon::iter::IntoParallelRefIterator;
use rayon::iter::ParallelIterator;
use crate::addresses::{
    address_to_hex, compute_create2_address, create2_address_bytes, spec_address_display, Address,
};
use crate::config::ConfigError;
use crate::pattern::{is_valid_address, spec_any_rule_matches, PatternRule};
use crate::salts::{generate_batch_salts, regenerate_in_place};

verus! {

/// The shared cancellation flag. It starts unset and only `set` ever writes
/// it, always to true, so no reader can see it go back from set to unset.
/// Reads and writes are relaxed atomic operations; nothing is promised about
/// the value a read returns, since any worker may raise the flag at any
/// moment.
pub struct SearchSignal {
    flag: AtomicBool,
}

impl SearchSignal {
    /// Creates the signal, initially unset.
    pub fn new() -> SearchSignal {
        SearchSignal { flag: AtomicBool::new(false) }
    }

    /// Reads the flag.
    pub fn is_set(&self) -> bool {
        self.flag.load(core::sync::atomic::Ordering::Relaxed)
    }

    /// Raises the flag. Raising it twice is the same as raising it once.
    pub fn set(&self) {
        self.flag.store(true, core::sync::atomic::Ordering::Relaxed)
    }
}

/// The shared count of candidates processed so far, used only for progress
/// reporting, never for correctness. Updates are relaxed atomic operations
/// and wrap around at the machine limit.
pub struct ProgressCounter {
    count: AtomicUsize,
}

impl ProgressCounter {
    /// Creates the counter at zero.
    pub fn new() -> ProgressCounter {
        ProgressCounter { count: AtomicUsize::new(0) }
    }

    /// Adds `n` to the shared count.
    pub fn add(&self, n: usize) {
        self.count.fetch_add(n, core::sync::atomic::Ordering::Relaxed);
    }

    /// Reads the shared count; other workers may add to it at any moment, so
    /// nothing is promised of the value.
    pub fn get(&self) -> usize {
        self.count.load(core::sync::atomic::Ordering::Relaxed)
    }
}

/// A found salt together with the canonical rendering of the address it
/// derives to.
#[derive(Debug)]
pub struct MatchResult {
    pub salt: [u8; 32],
    pub address: String,
}

/// The address derived from this salt matches some rule, against its
/// canonical lowercase rendering.
pub open spec fn spec_salt_hits(
    deployer: Seq<u8>,
    salt: Seq<u8>,
    init_code: Seq<u8>,
    rules: Seq<PatternRule>,
) -> bool {
    spec_any_rule_matches(rules, spec_address_display(create2_address_bytes(deployer, salt, init_code)))
}

/// The result is genuine: its salt derives to an address that matches the
/// rules, and its address field is exactly that address's canonical
/// rendering.
pub open spec fn spec_match_ok(
    m: MatchResult,
    deployer: Seq<u8>,
    init_code: Seq<u8>,
    rules: Seq<PatternRule>,
) -> bool {
    spec_salt_hits(deployer, m.salt@, init_code, rules) && m.address@ == spec_address_display(
        create2_address_bytes(deployer, m.salt@, init_code),
    )
}

/// Derives the address for one salt, renders it, and tests it against the
/// rules; returns the salt and rendering exactly when they match.
pub fn check_salt(deployer: Address, salt: &[u8; 32], init_code: &[u8], rules: &Vec<
    PatternRule,
>) -> (r: Option<MatchResult>)
    ensures
        r is Some <==> spec_salt_hits(deployer@, salt@, init_code@, rules@),
        r matches Some(m) ==> m.salt@ == salt@ && spec_match_ok(m, deployer@, init_code@, rules@),
{
    let address = compute_create2_address(deployer, salt, init_code);
    let addr_str = address_to_hex(&address);
    if is_valid_address(rules, addr_str.as_str()) {
        Some(MatchResult { salt: *salt, address: addr_str })
    } else {
        None
    }
}

/// Relies on rayon's par_iter().find_map_first over the batch: the closure is
/// the verified `check_salt`, so any returned result is `check_salt`'s answer
/// for some salt of the batch, and an empty answer means no salt of the batch
/// matches.
#[verifier::external_body]
fn scan_batch(batch: &Vec<[u8; 32]>, deployer: Address, init_code: &[u8], rules: &Vec<
    PatternRule,
>) -> (r: Option<MatchResult>)
    ensures
        r matches Some(m) ==> (exists|i: int|
            0 <= i < batch@.len() && m.salt@ == (#[trigger] batch@[i])@) && spec_match_ok(
            m,
            deployer@,
            init_code@,
            rules@,
        ),
        r is None ==> forall|i: int|
            0 <= i < batch@.len() ==> !spec_salt_hits(
                deployer@,
                (#[trigger] batch@[i])@,
                init_code@,
                rules@,
            ),
{
    batch.par_iter().find_map_first(|salt: &[u8; 32]| check_salt(deployer, salt, init_code, rules))
}

/// Relies on std::io's writeln to standard output: prints the running count
/// of processed candidates.
#[verifier::external_body]
fn report_progress(processed: usize) {
    let _ = writeln!(std::io::stdout(), "Processed: {} addresses", processed);
}

/// One worker's control loop: scan the batch, report the first match after
/// raising the shared signal, otherwise regenerate the batch, add its size to
/// the progress counter, and go round again until the signal is seen set.
/// The loop carries a finite pass budget only so that each pass provably
/// consumes something; at one batch per pass no run can come near exhausting
/// it.
pub fn search_worker(
    deployer: Address,
    init_code: &[u8],
    rules: &Vec<PatternRule>,
    batch_size: usize,
    signal: &SearchSignal,
    counter: &ProgressCounter,
) -> (r: Option<MatchResult>)
    ensures
        r matches Some(m) ==> spec_match_ok(m, deployer@, init_code@, rules@),
{
    let mut batch = generate_batch_salts(batch_size);
    let mut fuel: u64 = u64::MAX;
    while fuel > 0
        invariant
            batch@.len() == batch_size,
        decreases fuel,
    {
        if signal.is_set() {
            return None;
        }
        match scan_batch(&batch, deployer, init_code, rules) {
            Some(m) => {
                signal.set();
                return Some(m);
            },
            None => {
                regenerate_in_place(&mut batch);
                counter.add(batch_size);
                let processed = counter.get();
                if processed % 100000 == 0 {
                    report_progress(processed);
                }
            },
        }
        fuel = fuel - 1;
    }
    None
}

/// Relies on rayon's into_par_iter().map().collect over the worker indices:
/// one entry per worker, in index order, each entry the return value of the
/// verified `search_worker`; collect joins every worker before returning.
#[verifier::external_body]
fn run_workers(
    thread_count: usize,
    deployer: Address,
    init_code: &[u8],
    rules: &Vec<PatternRule>,
    batch_size: usize,
    signal: &SearchSignal,
    counter: &ProgressCounter,
) -> (r: Vec<Option<MatchResult>>)
    ensures
        r@.len() == thread_count,
        forall|i: int|
            0 <= i < r@.len() ==> ((#[trigger] r@[i]) matches Some(m) ==> spec_match_ok(
                m,
                deployer@,
                init_code@,
                rules@,
            )),
{
    (0..thread_count)
        .into_par_iter()
        .map(|_i: usize| search_worker(deployer, init_code, rules, batch_size, signal, counter))
        .collect()
}

/// The first non-empty result in spawn order: empty only when every worker
/// came back empty, and otherwise exactly the entry before which every
/// earlier worker came back empty.
pub fn first_match(results: Vec<Option<MatchResult>>) -> (r: Option<MatchResult>)
    ensures
        r is None ==> forall|i: int| 0 <= i < results@.len() ==> (#[trigger] results@[i]) is None,
        r matches Some(m) ==> exists|i: int|
            0 <= i < results@.len() && (#[trigger] results@[i]) == Some(m) && (forall|j: int|
                0 <= j < i ==> results@[j] is None),
{
    let ghost orig = results@;
    let mut rest = results;
    let mut winner: Option<MatchResult> = None;
    while rest.len() > 0
        invariant
            rest@.len() <= orig.len(),
            rest@ == orig.subrange(0, rest@.len() as int),
            winner is None ==> forall|k: int|
                rest@.len() <= k < orig.len() ==> (#[trigger] orig[k]) is None,
            winner matches Some(m) ==> exists|k: int|
                rest@.len() <= k < orig.len() && (#[trigger] orig[k]) == Some(m) && (forall|
                    j: int,
                |
                    rest@.len() <= j < k ==> orig[j] is None),
        decreases rest@.len(),
    {
        let ghost pre = rest@;
        let item = rest.pop().unwrap();
        proof {
            assert(item == pre[pre.len() - 1]);
            assert(pre[pre.len() - 1] == orig.subrange(0, pre.len() as int)[pre.len() - 1]);
            assert(item == orig[rest@.len() as int]);
        }
        if item.is_some() {
            winner = item;
        }
    }
    proof {
        assert(orig.subrange(0, 0) =~= Seq::<Option<MatchResult>>::empty());
    }
    winner
}

/// Runs the whole search: checks the fatal preconditions, spawns
/// `thread_count` workers sharing one signal and one counter, joins them all,
/// and returns the first result in spawn order. A zero thread count and an
/// empty rule list are fatal configuration faults, reported before any worker
/// is spawned.
pub fn run(
    deployer: Address,
    init_code: &Vec<u8>,
    rules: &Vec<PatternRule>,
    batch_size: usize,
    thread_count: usize,
) -> (r: Result<Option<MatchResult>, ConfigError>)
    ensures
        thread_count == 0 ==> r matches Err(ConfigError::InvalidThreads),
        thread_count > 0 && rules@.len() == 0 ==> r matches Err(ConfigError::NoRules),
        thread_count > 0 && rules@.len() > 0 ==> r is Ok,
        r matches Ok(Some(m)) ==> spec_match_ok(m, deployer@, init_code@, rules@),
{
    if thread_count == 0 {
        return Err(ConfigError::InvalidThreads);
    }
    if rules.len() == 0 {
        return Err(ConfigError::NoRules);
    }
    let signal = SearchSignal::new();
    let counter = ProgressCounter::new();
    let results = run_workers(
        thread_count,
        deployer,
        init_code.as_slice(),
        rules,
        batch_size,
        &signal,
        &counter,
    );
    Ok(first_match(results))
}

} // verus!
