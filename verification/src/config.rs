//! Configuration to create a consumer or producer.
//!
//! A [`Config`] accumulates key/value options; keys are unique and a later
//! `set` of the same key wins. [`Config::create_kafka_config`] commits the
//! options: each pair is applied in insertion order to a fresh native
//! configuration object, and the first pair the engine rejects (or that
//! cannot cross into a C string) fails the whole build with an error that
//! names exactly that pair. The engine's per-pair answers enter as plain
//! [`ConfVerdict`] values, so the commit logic is proved for every answer
//! the engine could give.

use vstd::prelude::*;

use crate::error::{ConfRes, Error, IsError};
use crate::util::{contains_nul, has_nul};

verus! {

/// The content of an option list: each pair as character sequences, in
/// insertion order.
pub open spec fn pairs_view(s: Seq<(String, String)>) -> Seq<(Seq<char>, Seq<char>)> {
    Seq::new(s.len(), |i: int| (s[i].0@, s[i].1@))
}

/// No two pairs of the list share a key.
pub open spec fn keys_unique(s: Seq<(Seq<char>, Seq<char>)>) -> bool {
    forall|i: int, j: int| 0 <= i < j < s.len() ==> s[i].0 != s[j].0
}

/// Last-write-wins update of an option list: an existing key keeps its
/// position and takes the new value; a new key is appended.
pub open spec fn upsert(
    s: Seq<(Seq<char>, Seq<char>)>,
    k: Seq<char>,
    v: Seq<char>,
) -> Seq<(Seq<char>, Seq<char>)> {
    if exists|i: int| 0 <= i < s.len() && s[i].0 == k {
        s.update(choose|i: int| 0 <= i < s.len() && s[i].0 == k, (k, v))
    } else {
        s.push((k, v))
    }
}

/// The engine's answer to one configuration pair: a result code and, on
/// rejection, its descriptive text.
#[derive(Clone, Debug, PartialEq, Eq)]
pub struct ConfVerdict {
    /// The result code of the per-pair validation call.
    pub res: ConfRes,
    /// The engine's descriptive error text; meaningful only on rejection.
    pub descr: String,
}

/// The content of one engine answer.
pub open spec fn verdict_view(v: ConfVerdict) -> (ConfRes, Seq<char>) {
    (v.res, v.descr@)
}

/// The content of a list of engine answers.
pub open spec fn verdicts_view(s: Seq<ConfVerdict>) -> Seq<(ConfRes, Seq<char>)> {
    Seq::new(s.len(), |i: int| verdict_view(s[i]))
}

/// Whether pair `p` is applied successfully under engine answer `v`:
/// neither text holds an embedded terminator, and the engine accepted it.
pub open spec fn pair_ok(p: (Seq<char>, Seq<char>), v: (ConfRes, Seq<char>)) -> bool {
    &&& !has_nul(p.0)
    &&& !has_nul(p.1)
    &&& v.0 == ConfRes::ConfOk
}

/// Whether a whole build succeeds: every pair is applied successfully.
pub open spec fn build_ok(ps: Seq<(Seq<char>, Seq<char>)>, vs: Seq<(ConfRes, Seq<char>)>) -> bool {
    forall|i: int| 0 <= i < ps.len() ==> pair_ok(ps[i], vs[i])
}

/// The error owed for the first failing pair `p` under answer `v`: an
/// embedded terminator in the key, then in the value, is an encoding
/// error carrying the offending text; otherwise the rejection carries the
/// result code, the engine's text, and the pair itself.
pub open spec fn pair_error_matches(
    e: Error,
    p: (Seq<char>, Seq<char>),
    v: (ConfRes, Seq<char>),
) -> bool {
    if has_nul(p.0) {
        e matches Error::Nul(s) && s@ == p.0
    } else if has_nul(p.1) {
        e matches Error::Nul(s) && s@ == p.1
    } else {
        e matches Error::Config(res, d, k, val) && res == v.0 && d@ == v.1 && k@ == p.0 && val@
            == p.1
    }
}

/// The outcome owed by a build of `ps` under answers `vs`: all pairs
/// applied and reflected, or the error for the first failing pair.
pub open spec fn build_result_matches(
    r: Result<NativeConfig, Error>,
    ps: Seq<(Seq<char>, Seq<char>)>,
    vs: Seq<(ConfRes, Seq<char>)>,
) -> bool {
    match r {
        Ok(nc) => build_ok(ps, vs) && nc@ == ps,
        Err(e) => exists|i: int|
            0 <= i < ps.len() && !pair_ok(ps[i], vs[i]) && (forall|j: int|
                0 <= j < i ==> pair_ok(ps[j], vs[j])) && #[trigger] pair_error_matches(
                e,
                ps[i],
                vs[i],
            ),
    }
}

/// The engine-side configuration object a successful build produces:
/// exactly the accepted pairs, in order. It is consumed by the client
/// constructor and never reused afterwards.
#[derive(Debug)]
pub struct NativeConfig {
    conf: Vec<(String, String)>,
}

impl View for NativeConfig {
    type V = Seq<(Seq<char>, Seq<char>)>;

    closed spec fn view(&self) -> Seq<(Seq<char>, Seq<char>)> {
        pairs_view(self.conf@)
    }
}

impl NativeConfig {
    /// The applied pairs, in the order they were applied.
    pub fn entries(&self) -> (r: &Vec<(String, String)>)
        ensures
            pairs_view(r@) == self@,
    {
        &self.conf
    }
}

/// Find the position of `key` in the list, scanning in order.
fn find_key(pairs: &Vec<(String, String)>, key: &String) -> (r: Option<usize>)
    ensures
        ({
            match r {
                Some(i) => 0 <= i < pairs@.len() && pairs@[i as int].0@ == key@,
                None => forall|i: int| 0 <= i < pairs@.len() ==> pairs@[i as int].0@ != key@,
            }
        }),
{
    let n = pairs.len();
    let mut i: usize = 0;
    while i < n
        invariant
            0 <= i <= n,
            n == pairs@.len(),
            forall|j: int| 0 <= j < i ==> pairs@[j].0@ != key@,
        decreases n - i,
    {
        if pairs[i].0 == *key {
            return Some(i);
        }
        i += 1;
    }
    None
}

/// Last-write-wins insertion into an option list held as a vector of
/// unique-keyed pairs.
pub(crate) fn upsert_pair(pairs: &mut Vec<(String, String)>, key: &str, value: &str)
    requires
        keys_unique(pairs_view(old(pairs)@)),
    ensures
        pairs_view(final(pairs)@) == upsert(pairs_view(old(pairs)@), key@, value@),
        keys_unique(pairs_view(final(pairs)@)),
{
    let k = key.to_owned();
    let v = value.to_owned();
    let found = find_key(pairs, &k);
    match found {
        Some(i) => {
            pairs[i] = (k, v);
            proof {
                let ps = pairs_view(old(pairs)@);
                assert(ps[i as int].0 == key@);
                let w = choose|w: int| 0 <= w < ps.len() && ps[w].0 == key@;
                assert(w == i as int);
                assert(pairs_view(pairs@) =~= ps.update(i as int, (key@, value@)));
            }
        },
        None => {
            pairs.push((k, v));
            proof {
                let ps = pairs_view(old(pairs)@);
                assert(!(exists|w: int| 0 <= w < ps.len() && ps[w].0 == key@));
                assert(pairs_view(pairs@) =~= ps.push((key@, value@)));
            }
        },
    }
}

/// Apply each pair of an option list, in order, to a fresh engine-side
/// object; `verdicts[i]` is the engine's answer to pair `i`. The result
/// is the applied pairs, or the error for the first failing pair.
pub(crate) fn apply_pairs(pairs: &Vec<(String, String)>, verdicts: &Vec<ConfVerdict>) -> (r: Result<
    Vec<(String, String)>,
    Error,
>)
    requires
        verdicts@.len() == pairs@.len(),
    ensures
        ({
            match r {
                Ok(applied) => build_ok(pairs_view(pairs@), verdicts_view(verdicts@))
                    && pairs_view(applied@) == pairs_view(pairs@),
                Err(e) => exists|i: int|
                    0 <= i < pairs@.len() && !pair_ok(
                        pairs_view(pairs@)[i],
                        verdicts_view(verdicts@)[i],
                    ) && (forall|j: int|
                        0 <= j < i ==> pair_ok(pairs_view(pairs@)[j], verdicts_view(verdicts@)[j]))
                        && #[trigger] pair_error_matches(
                        e,
                        pairs_view(pairs@)[i],
                        verdicts_view(verdicts@)[i],
                    ),
            }
        }),
{
    let ghost ps = pairs_view(pairs@);
    let ghost vs = verdicts_view(verdicts@);
    let n = pairs.len();
    let mut applied: Vec<(String, String)> = Vec::new();
    let mut idx: usize = 0;
    while idx < n
        invariant
            0 <= idx <= n,
            n == pairs@.len(),
            verdicts@.len() == n,
            ps == pairs_view(pairs@),
            vs == verdicts_view(verdicts@),
            forall|j: int| 0 <= j < idx ==> pair_ok(ps[j], vs[j]),
            pairs_view(applied@) =~= ps.take(idx as int),
        decreases n - idx,
    {
        let key = pairs[idx].0.clone();
        let value = pairs[idx].1.clone();
        if contains_nul(key.as_str()) {
            assert(pair_error_matches(Error::Nul(key), ps[idx as int], vs[idx as int]));
            return Err(Error::Nul(key));
        }
        if contains_nul(value.as_str()) {
            assert(pair_error_matches(Error::Nul(value), ps[idx as int], vs[idx as int]));
            return Err(Error::Nul(value));
        }
        let res = verdicts[idx].res;
        if res.is_error() {
            let descr = verdicts[idx].descr.clone();
            assert(pair_error_matches(
                Error::Config(res, descr, key, value),
                ps[idx as int],
                vs[idx as int],
            ));
            return Err(Error::Config(res, descr, key, value));
        }
        let ghost before = applied@;
        applied.push((key, value));
        proof {
            assert(applied@ == before.push((key, value)));
            assert(pairs_view(before).len() == before.len());
            assert(before.len() == idx as int);
            assert forall|j: int| 0 <= j < idx as int + 1 implies pairs_view(applied@)[j] == ps[j] by {
                if j < idx as int {
                    assert(pairs_view(before)[j] == ps.take(idx as int)[j]);
                    assert(applied@[j] == before[j]);
                } else {
                    assert(applied@[j] == (key, value));
                }
            }
            assert(pairs_view(applied@) =~= ps.take(idx as int + 1));
        }
        idx += 1;
    }
    proof {
        assert(pairs_view(applied@) =~= ps);
    }
    Ok(applied)
}

/// Client configuration.
#[derive(Debug)]
pub struct Config {
    conf: Vec<(String, String)>,
}

impl View for Config {
    type V = Seq<(Seq<char>, Seq<char>)>;

    closed spec fn view(&self) -> Seq<(Seq<char>, Seq<char>)> {
        pairs_view(self.conf@)
    }
}

impl Config {
    /// The accumulated options keep their keys unique.
    pub open spec fn wf(&self) -> bool {
        keys_unique(self@)
    }

    /// Creates a new empty configuration.
    pub fn new() -> (c: Config)
        ensures
            c@.len() == 0,
            c.wf(),
    {
        Config { conf: Vec::new() }
    }

    /// Set a new parameter in the configuration; a later write of the
    /// same key wins. Returns the configuration again, for chaining.
    pub fn set(&mut self, key: &str, value: &str) -> (r: &mut Config)
        requires
            old(self).wf(),
        ensures
            r@ == upsert(old(self)@, key@, value@),
            r.wf(),
            *final(self) == *final(r),
    {
        upsert_pair(&mut self.conf, key, value);
        self
    }

    /// Creates the native configuration object: applies every accumulated
    /// pair, in insertion order, to a fresh engine-side object.
    /// `verdicts[i]` is the engine's answer to pair `i`. Either every pair
    /// is accepted and reflected in the result, or the build fails with
    /// the error for exactly the first failing pair.
    pub fn create_kafka_config(&self, verdicts: &Vec<ConfVerdict>) -> (r: Result<
        NativeConfig,
        Error,
    >)
        requires
            verdicts@.len() == self@.len(),
        ensures
            build_result_matches(r, self@, verdicts_view(verdicts@)),
    {
        match apply_pairs(&self.conf, verdicts) {
            Ok(applied) => Ok(NativeConfig { conf: applied }),
            Err(e) => Err(e),
        }
    }
}

/// Create a new consumer. The library itself builds no consumer; the
/// embedding implements this for its consumer-side types.
pub trait CreateConsumer<T, E> {
    /// Attempt to create a consumer client.
    fn create_consumer(&self) -> Result<T, E>;
}

/// Create a new producer. The library itself constructs producers from an
/// engine client; the embedding implements this for its own entry types.
pub trait CreateProducer<T, E> {
    /// Attempt to create a producer client.
    fn create_producer(&self) -> Result<T, E>;
}

} // verus!
