//! Replay a VCD trace onto shared pin cells.
//!
//! A [`VcdReader`] splits its input into whitespace-separated tokens, parses
//! the header declarations up to `$enddefinitions`, and then walks the body
//! one step at a time: each [`VcdReader::next`] call applies every scalar
//! change it passes to the registered pin cells and stops at the next
//! timestamp marker, whose resolved time it returns.  A timestamp therefore
//! describes the instant *before* the changes applied by the following call.
//!
//! The supported grammar is stated token by token as a specification
//! function, [`spec_parse_header`], and the parser is proved to decide
//! exactly that grammar.

use crate::pins::{arc_clone, AtomicPinState, InputPin, PinState};
use crate::text::{
    bytes_eq, copy_bytes, dec_value, digits_end, is_dec, lemma_digits_end, lemma_tok_views_push,
    parse_u64, scan_digits, spec_tokens, tok_views, tokenize,
};
use crate::timescale::{spec_divisor, spec_unit_of, Duration, TimescaleUnit};
use crate::VcdError;
use core::sync::atomic::Ordering;
use std::sync::Arc;
use vstd::prelude::*;
use vstd::slice::slice_subrange;
use vstd::string::StringSliceAdditionalSpecFns;

verus! {

/// A variable declared by a VCD header: the scope path it sits under
/// extended by its own name, its identifier token, and its declared width.
pub ghost struct SpecVar {
    /// The scope names from outermost in, ending in the variable's name.
    pub path: Seq<Seq<u8>>,
    /// The identifier token change records refer to it by.
    pub id: Seq<u8>,
    /// The declared width in bits.
    pub width: u64,
}

/// What a well-formed VCD header declares: its variables in declaration
/// order and its timescale, if any.
pub ghost struct SpecHeader {
    /// The declared variables, in declaration order.
    pub vars: Seq<SpecVar>,
    /// The declared timescale: a scale count and a unit.
    pub timescale: Option<(u64, TimescaleUnit)>,
}

/// The first index at or after `i` whose token is `$end`, or the token
/// count if there is none.
pub open spec fn find_end(toks: Seq<Seq<u8>>, i: int) -> int
    decreases toks.len() - i,
{
    if i < 0 || i >= toks.len() {
        toks.len() as int
    } else if toks[i] == "$end".spec_bytes() {
        i
    } else {
        find_end(toks, i + 1)
    }
}

proof fn lemma_find_end(toks: Seq<Seq<u8>>, i: int)
    requires
        0 <= i <= toks.len(),
    ensures
        i <= find_end(toks, i) <= toks.len(),
        find_end(toks, i) < toks.len() ==> toks[find_end(toks, i)] == "$end".spec_bytes(),
        forall|j: int| i <= j < find_end(toks, i) ==> toks[j] != "$end".spec_bytes(),
    decreases toks.len() - i,
{
    if i < toks.len() && toks[i] != "$end".spec_bytes() {
        lemma_find_end(toks, i + 1);
    }
}

proof fn lemma_find_end_at(toks: Seq<Seq<u8>>, i: int, j: int)
    requires
        0 <= i <= j <= toks.len(),
        forall|k: int| i <= k < j ==> toks[k] != "$end".spec_bytes(),
        j < toks.len() ==> toks[j] == "$end".spec_bytes(),
    ensures
        find_end(toks, i) == j,
    decreases j - i,
{
    if i < j {
        lemma_find_end_at(toks, i + 1, j);
    }
}

/// What a `$timescale` directive starting at token index `i` declares, and
/// the index of the first token after its `$end`: the scale and unit stand
/// either in one token, as in `1ns`, or in two, as in `1 ns`.
pub open spec fn spec_timescale_at(toks: Seq<Seq<u8>>, i: int) -> Option<(u64, TimescaleUnit, int)> {
    if i + 1 >= toks.len() {
        None
    } else {
        let a = toks[i + 1];
        let de = digits_end(a, 0);
        if de == 0 || dec_value(a.take(de)) > u64::MAX {
            None
        } else {
            let scale = dec_value(a.take(de)) as u64;
            if de == a.len() {
                if i + 3 < toks.len() {
                    match spec_unit_of(toks[i + 2]) {
                        Some(u) => if toks[i + 3] == "$end".spec_bytes() {
                            Some((scale, u, i + 4))
                        } else {
                            None
                        },
                        None => None,
                    }
                } else {
                    None
                }
            } else {
                match spec_unit_of(a.skip(de)) {
                    Some(u) => if i + 2 < toks.len() && toks[i + 2] == "$end".spec_bytes() {
                        Some((scale, u, i + 3))
                    } else {
                        None
                    },
                    None => None,
                }
            }
        }
    }
}

/// The header the token sequence declares from index `i` on, given the
/// scope names currently open and the declarations gathered so far; `None`
/// on a malformed header.  On success the returned index is that of the
/// first body token, directly after `$enddefinitions $end`.
///
/// The supported directives are `$scope <kind> <name> $end`,
/// `$upscope $end`, `$var <kind> <width> <id> <name> $end`, `$timescale`,
/// `$enddefinitions $end`, and the free-text directives `$comment`, `$date`
/// and `$version`, whose words up to `$end` are skipped.
pub open spec fn spec_parse_header(
    toks: Seq<Seq<u8>>,
    i: int,
    scope: Seq<Seq<u8>>,
    hdr: SpecHeader,
) -> Option<(SpecHeader, int)>
    decreases toks.len() - i,
    via spec_parse_header_decreases
{
    if i < 0 || i >= toks.len() {
        None
    } else {
        let t = toks[i];
        if t == "$enddefinitions".spec_bytes() {
            if i + 1 < toks.len() && toks[i + 1] == "$end".spec_bytes() {
                Some((hdr, i + 2))
            } else {
                None
            }
        } else if t == "$timescale".spec_bytes() {
            match spec_timescale_at(toks, i) {
                Some((scale, unit, n)) => spec_parse_header(
                    toks,
                    n,
                    scope,
                    SpecHeader { vars: hdr.vars, timescale: Some((scale, unit)) },
                ),
                None => None,
            }
        } else if t == "$scope".spec_bytes() {
            if i + 3 < toks.len() && toks[i + 3] == "$end".spec_bytes() {
                spec_parse_header(toks, i + 4, scope.push(toks[i + 2]), hdr)
            } else {
                None
            }
        } else if t == "$upscope".spec_bytes() {
            if i + 1 < toks.len() && toks[i + 1] == "$end".spec_bytes() && scope.len() > 0 {
                spec_parse_header(toks, i + 2, scope.drop_last(), hdr)
            } else {
                None
            }
        } else if t == "$var".spec_bytes() {
            if i + 5 < toks.len() && toks[i + 5] == "$end".spec_bytes() && is_dec(toks[i + 2])
                && dec_value(toks[i + 2]) <= u64::MAX {
                let v = SpecVar {
                    path: scope.push(toks[i + 4]),
                    id: toks[i + 3],
                    width: dec_value(toks[i + 2]) as u64,
                };
                spec_parse_header(
                    toks,
                    i + 6,
                    scope,
                    SpecHeader { vars: hdr.vars.push(v), timescale: hdr.timescale },
                )
            } else {
                None
            }
        } else if t == "$comment".spec_bytes() || t == "$date".spec_bytes() || t
            == "$version".spec_bytes() {
            let e = find_end(toks, i + 1);
            if e < toks.len() {
                spec_parse_header(toks, e + 1, scope, hdr)
            } else {
                None
            }
        } else {
            None
        }
    }
}

#[via_fn]
proof fn spec_parse_header_decreases(toks: Seq<Seq<u8>>, i: int, scope: Seq<Seq<u8>>, hdr: SpecHeader) {
    if 0 <= i < toks.len() {
        lemma_find_end(toks, i + 1);
    }
}

/// The header the input's tokens declare, if well-formed, and the token
/// index where the body begins.
pub open spec fn spec_header_of(bytes: Seq<u8>) -> Option<(SpecHeader, int)> {
    spec_parse_header(
        spec_tokens(bytes),
        0,
        Seq::empty(),
        SpecHeader { vars: Seq::empty(), timescale: None },
    )
}

/// A declared variable as the parser stores it.
pub(crate) struct VarDef {
    path: Vec<Vec<u8>>,
    id: Vec<u8>,
    width: u64,
}

impl VarDef {
    /// The declaration this entry stores.
    pub(crate) closed spec fn model(&self) -> SpecVar {
        SpecVar { path: tok_views(self.path), id: self.id@, width: self.width }
    }
}

/// The declarations a list of entries stores.
pub(crate) open spec fn var_models(vars: Seq<VarDef>) -> Seq<SpecVar> {
    vars.map_values(|v: VarDef| v.model())
}

proof fn lemma_var_models_push(vars: Seq<VarDef>, v: VarDef)
    ensures
        var_models(vars.push(v)) =~= var_models(vars).push(v.model()),
{
}

/// Copies a list of scope names.
fn copy_path(scope: &Vec<Vec<u8>>) -> (r: Vec<Vec<u8>>)
    ensures
        tok_views(r) == tok_views(*scope),
{
    let mut r: Vec<Vec<u8>> = Vec::new();
    let mut i: usize = 0;
    while i < scope.len()
        invariant
            i <= scope@.len(),
            tok_views(r) == tok_views(*scope).subrange(0, i as int),
        decreases scope@.len() - i,
    {
        let b = copy_bytes(&scope[i]);
        proof {
            lemma_tok_views_push(r@, b);
            assert(tok_views(*scope).subrange(0, i + 1) =~= tok_views(*scope).subrange(
                0,
                i as int,
            ).push(tok_views(*scope)[i as int]));
        }
        r.push(b);
        i += 1;
    }
    proof {
        assert(tok_views(*scope).subrange(0, scope@.len() as int) =~= tok_views(*scope));
    }
    r
}

/// Reads the `$timescale` directive whose keyword stands at token index `i`.
fn parse_timescale(toks: &Vec<Vec<u8>>, i: usize) -> (r: Option<(u64, TimescaleUnit, usize)>)
    requires
        i < toks@.len(),
    ensures
        match r {
            Some((scale, unit, n)) => spec_timescale_at(tok_views(*toks), i as int) == Some(
                (scale, unit, n as int),
            ) && i < n <= toks@.len(),
            None => spec_timescale_at(tok_views(*toks), i as int) is None,
        },
{
    if toks.len() - i <= 1 {
        return None;
    }
    let a: &Vec<u8> = &toks[i + 1];
    let de: usize = scan_digits(a.as_slice());
    proof {
        lemma_digits_end(a@, 0);
        assert(a@.subrange(0, de as int) =~= a@.take(de as int));
    }
    if de == 0 {
        return None;
    }
    let scale: u64 = match parse_u64(slice_subrange(a.as_slice(), 0, de)) {
        Some(s) => s,
        None => {
            return None;
        },
    };
    if de == a.len() {
        if toks.len() - i > 3 {
            let unit = match TimescaleUnit::from_token(toks[i + 2].as_slice()) {
                Some(u) => u,
                None => {
                    return None;
                },
            };
            if bytes_eq(toks[i + 3].as_slice(), "$end".as_bytes()) {
                Some((scale, unit, i + 4))
            } else {
                None
            }
        } else {
            None
        }
    } else {
        proof {
            assert(a@.subrange(de as int, a@.len() as int) =~= a@.skip(de as int));
        }
        let unit = match TimescaleUnit::from_token(slice_subrange(a.as_slice(), de, a.len())) {
            Some(u) => u,
            None => {
                return None;
            },
        };
        if toks.len() - i > 2 && bytes_eq(toks[i + 2].as_slice(), "$end".as_bytes()) {
            Some((scale, unit, i + 3))
        } else {
            None
        }
    }
}

/// Parses the header from the token list: the declared variables, the
/// timescale if any, and the index of the first body token.
fn parse_header_toks(toks: &Vec<Vec<u8>>) -> (r: Option<
    (Vec<VarDef>, Option<(u64, TimescaleUnit)>, usize),
>)
    ensures
        match r {
            Some((vars, ts, n)) => spec_parse_header(
                tok_views(*toks),
                0,
                Seq::empty(),
                SpecHeader { vars: Seq::empty(), timescale: None },
            ) == Some((SpecHeader { vars: var_models(vars@), timescale: ts }, n as int)) && n
                <= toks@.len(),
            None => spec_parse_header(
                tok_views(*toks),
                0,
                Seq::empty(),
                SpecHeader { vars: Seq::empty(), timescale: None },
            ) is None,
        },
{
    let ghost gt = tok_views(*toks);
    let mut i: usize = 0;
    let mut scope: Vec<Vec<u8>> = Vec::new();
    let mut vars: Vec<VarDef> = Vec::new();
    let mut ts: Option<(u64, TimescaleUnit)> = None;
    proof {
        assert(tok_views(scope) =~= Seq::<Seq<u8>>::empty());
        assert(var_models(vars@) =~= Seq::<SpecVar>::empty());
    }
    loop
        invariant
            i <= toks@.len(),
            gt == tok_views(*toks),
            spec_parse_header(
                gt,
                0,
                Seq::empty(),
                SpecHeader { vars: Seq::empty(), timescale: None },
            ) == spec_parse_header(
                gt,
                i as int,
                tok_views(scope),
                SpecHeader { vars: var_models(vars@), timescale: ts },
            ),
        decreases toks@.len() - i,
    {
        if i >= toks.len() {
            return None;
        }
        let t: &Vec<u8> = &toks[i];
        if bytes_eq(t.as_slice(), "$enddefinitions".as_bytes()) {
            if toks.len() - i > 1 && bytes_eq(toks[i + 1].as_slice(), "$end".as_bytes()) {
                return Some((vars, ts, i + 2));
            } else {
                return None;
            }
        } else if bytes_eq(t.as_slice(), "$timescale".as_bytes()) {
            match parse_timescale(toks, i) {
                Some((scale, unit, n)) => {
                    ts = Some((scale, unit));
                    i = n;
                },
                None => {
                    return None;
                },
            }
        } else if bytes_eq(t.as_slice(), "$scope".as_bytes()) {
            if toks.len() - i > 3 && bytes_eq(toks[i + 3].as_slice(), "$end".as_bytes()) {
                let name = copy_bytes(&toks[i + 2]);
                proof {
                    lemma_tok_views_push(scope@, name);
                }
                scope.push(name);
                i = i + 4;
            } else {
                return None;
            }
        } else if bytes_eq(t.as_slice(), "$upscope".as_bytes()) {
            if toks.len() - i > 1 && bytes_eq(toks[i + 1].as_slice(), "$end".as_bytes())
                && scope.len() > 0 {
                proof {
                    assert(scope@.drop_last().map_values(|x: Vec<u8>| x@) =~= tok_views(
                        scope,
                    ).drop_last());
                }
                scope.pop();
                i = i + 2;
            } else {
                return None;
            }
        } else if bytes_eq(t.as_slice(), "$var".as_bytes()) {
            if toks.len() - i > 5 && bytes_eq(toks[i + 5].as_slice(), "$end".as_bytes()) {
                let width: u64 = match parse_u64(toks[i + 2].as_slice()) {
                    Some(w) => w,
                    None => {
                        return None;
                    },
                };
                let mut path = copy_path(&scope);
                let name = copy_bytes(&toks[i + 4]);
                proof {
                    lemma_tok_views_push(path@, name);
                }
                path.push(name);
                let vd = VarDef { path, id: copy_bytes(&toks[i + 3]), width };
                proof {
                    lemma_var_models_push(vars@, vd);
                }
                vars.push(vd);
                i = i + 6;
            } else {
                return None;
            }
        } else if bytes_eq(t.as_slice(), "$comment".as_bytes()) || bytes_eq(
            t.as_slice(),
            "$date".as_bytes(),
        ) || bytes_eq(t.as_slice(), "$version".as_bytes()) {
            let mut j: usize = i + 1;
            while j < toks.len() && !bytes_eq(toks[j].as_slice(), "$end".as_bytes())
                invariant
                    i + 1 <= j <= toks@.len(),
                    gt == tok_views(*toks),
                    forall|k: int| i + 1 <= k < j ==> gt[k] != "$end".spec_bytes(),
                decreases toks@.len() - j,
            {
                j += 1;
            }
            proof {
                lemma_find_end_at(gt, i + 1, j as int);
            }
            if j >= toks.len() {
                return None;
            }
            i = j + 1;
        } else {
            return None;
        }
    }
}

/// The index of the first declared variable whose path equals `q`, if any.
pub open spec fn find_var(vars: Seq<SpecVar>, q: Seq<Seq<u8>>) -> Option<int>
    decreases vars.len(),
{
    if vars.len() == 0 {
        None
    } else if vars[0].path == q {
        Some(0int)
    } else {
        match find_var(vars.skip(1), q) {
            Some(j) => Some(j + 1),
            None => None,
        }
    }
}

proof fn lemma_find_var_at(vars: Seq<SpecVar>, q: Seq<Seq<u8>>, i: int)
    requires
        0 <= i <= vars.len(),
        forall|j: int| 0 <= j < i ==> vars[j].path != q,
        i < vars.len() ==> vars[i].path == q,
    ensures
        find_var(vars, q) == if i < vars.len() {
            Some(i)
        } else {
            None::<int>
        },
    decreases vars.len(),
{
    if vars.len() == 0 {
    } else if vars[0].path == q {
        assert(i == 0);
    } else {
        assert(i >= 1);
        assert(forall|j: int| 0 <= j < i - 1 ==> vars.skip(1)[j] == vars[j + 1]);
        lemma_find_var_at(vars.skip(1), q, i - 1);
    }
}

/// The byte sequences a path query names.
pub open spec fn path_bytes(path: Seq<&str>) -> Seq<Seq<u8>> {
    path.map_values(|s: &str| s.spec_bytes())
}

proof fn lemma_pin_ids_push(pins: Seq<(Vec<u8>, Arc<AtomicPinState>)>, p: (Vec<u8>, Arc<AtomicPinState>))
    ensures
        pins.push(p).map_values(|x: (Vec<u8>, Arc<AtomicPinState>)| x.0@) =~= pins.map_values(
            |x: (Vec<u8>, Arc<AtomicPinState>)| x.0@,
        ).push(p.0@),
{
}

/// Whether a token is a timestamp marker this reader yields: `#` followed
/// by a decimal tick count whose value, scaled by the resolved timescale
/// count, fits in a `u64`.
pub open spec fn valid_ts_token(t: Seq<u8>, scale: u64) -> bool {
    t.len() >= 2 && t[0] == 35 && is_dec(t.skip(1)) && dec_value(t.skip(1)) <= u64::MAX
        && dec_value(t.skip(1)) * scale <= u64::MAX
}

/// Where one advance step stops: the scaled tick count of the first
/// timestamp marker at or after token index `i` and the index just past it,
/// or no value and the token count if the body is exhausted first.
pub open spec fn spec_scan(toks: Seq<Seq<u8>>, i: int, scale: u64) -> (Option<u64>, int)
    decreases toks.len() - i,
{
    if i < 0 || i >= toks.len() {
        (None::<u64>, toks.len() as int)
    } else if valid_ts_token(toks[i], scale) {
        (Some((dec_value(toks[i].skip(1)) * scale) as u64), i + 1)
    } else {
        spec_scan(toks, i + 1, scale)
    }
}

/// A reader for VCD traces.
///
/// Constructed over the trace bytes; hands out [`InputPin`]s for declared
/// variables and advances through the body with [`VcdReader::next`].
pub struct VcdReader {
    toks: Vec<Vec<u8>>,
    idx: usize,
    scale: Duration,
    vars: Vec<VarDef>,
    pins: Vec<(Vec<u8>, Arc<AtomicPinState>)>,
}

impl VcdReader {
    /// The tokens of the input this reader was built over.
    pub closed spec fn tokens(&self) -> Seq<Seq<u8>> {
        tok_views(self.toks)
    }

    /// The index of the next body token to look at.
    pub closed spec fn body_idx(&self) -> int {
        self.idx as int
    }

    /// The resolved timescale: the duration of one body tick.
    pub closed spec fn spec_scale(&self) -> Duration {
        self.scale
    }

    /// The variables the header declares, in declaration order.
    pub closed spec fn spec_vars(&self) -> Seq<SpecVar> {
        var_models(self.vars@)
    }

    /// The identifiers bound to pin cells so far, in binding order.
    pub closed spec fn pin_ids(&self) -> Seq<Seq<u8>> {
        self.pins@.map_values(|x: (Vec<u8>, Arc<AtomicPinState>)| x.0@)
    }

    /// The reader's position stays inside its token list.
    pub open spec fn wf(&self) -> bool {
        0 <= self.body_idx() <= self.tokens().len()
    }

    /// Creates a new VCD reader over the bytes of a trace.
    ///
    /// Parses the header at once: fails with [`VcdError::HeaderParse`]
    /// exactly when the header is malformed, and with
    /// [`VcdError::MissingTimescale`] exactly when a well-formed header
    /// declares no timescale.  On success the reader stands at the first
    /// body token with the resolved timescale and no pins bound yet.
    pub fn new(bytes: &[u8]) -> (r: Result<VcdReader, VcdError>)
        ensures
            match r {
                Ok(rd) => {
                    &&& spec_header_of(bytes@) matches Some((h, n)) && {
                        &&& rd.body_idx() == n
                        &&& rd.spec_vars() == h.vars
                        &&& h.timescale matches Some((scale, unit)) && rd.spec_scale() == (Duration {
                            count: scale,
                            divisor: spec_divisor(unit),
                        })
                    }
                    &&& rd.wf()
                    &&& rd.tokens() == spec_tokens(bytes@)
                    &&& rd.pin_ids() == Seq::<Seq<u8>>::empty()
                },
                Err(e) => {
                    &&& (e == VcdError::HeaderParse <==> spec_header_of(bytes@) is None)
                    &&& (e == VcdError::MissingTimescale <==> (spec_header_of(bytes@) matches Some(
                        (h, n),
                    ) && h.timescale is None))
                    &&& (e == VcdError::HeaderParse || e == VcdError::MissingTimescale)
                },
            },
    {
        let toks = tokenize(bytes);
        match parse_header_toks(&toks) {
            None => Err(VcdError::HeaderParse),
            Some((vars, ts, n)) => match ts {
                None => Err(VcdError::MissingTimescale),
                Some((scale, unit)) => {
                    let divisor = unit.divisor();
                    let pins: Vec<(Vec<u8>, Arc<AtomicPinState>)> = Vec::new();
                    proof {
                        assert(pins@.map_values(|x: (Vec<u8>, Arc<AtomicPinState>)| x.0@)
                            =~= Seq::<Seq<u8>>::empty());
                    }
                    Ok(
                        VcdReader {
                            toks,
                            idx: n,
                            scale: Duration { count: scale, divisor },
                            vars,
                            pins,
                        },
                    )
                },
            },
        }
    }

    /// The resolved timescale: the duration one body tick stands for.
    pub fn scale(&self) -> (r: Duration)
        ensures
            r == self.spec_scale(),
    {
        self.scale
    }

    /// Binds a declared variable to a fresh pin cell and returns a read-only
    /// pin over it.
    ///
    /// Looks the path up among the declared variables; on a miss returns
    /// nothing and changes nothing — a miss is not an error.  On a hit the
    /// first matching variable's identifier is bound to a fresh cell that
    /// starts [`PinState::Floating`]; changes the body has already advanced
    /// past are missed.
    pub fn get_pin(&mut self, path: &[&str]) -> (r: Option<InputPin>)
        ensures
            final(self).tokens() == old(self).tokens(),
            final(self).body_idx() == old(self).body_idx(),
            final(self).spec_scale() == old(self).spec_scale(),
            final(self).spec_vars() == old(self).spec_vars(),
            match r {
                Some(pin) => find_var(old(self).spec_vars(), path_bytes(path@)) matches Some(k)
                    && final(self).pin_ids() == old(self).pin_ids().push(
                    old(self).spec_vars()[k].id,
                ),
                None => find_var(old(self).spec_vars(), path_bytes(path@)) is None
                    && final(self).pin_ids() == old(self).pin_ids(),
            },
    {
        let mut k: usize = 0;
        loop
            invariant
                k <= self.vars@.len(),
                *self == *old(self),
                forall|j: int| 0 <= j < k ==> var_models(self.vars@)[j].path != path_bytes(path@),
            decreases self.vars@.len() - k,
        {
            if k >= self.vars.len() {
                proof {
                    lemma_find_var_at(self.spec_vars(), path_bytes(path@), k as int);
                }
                return None;
            }
            if path_matches(&self.vars[k].path, path) {
                proof {
                    lemma_find_var_at(self.spec_vars(), path_bytes(path@), k as int);
                }
                let state = Arc::new(AtomicPinState::new_with_state(PinState::Floating));
                let pin = InputPin::new(arc_clone(&state));
                let id = copy_bytes(&self.vars[k].id);
                proof {
                    lemma_pin_ids_push(self.pins@, (id, state));
                }
                self.pins.push((id, state));
                return Some(pin);
            }
            k += 1;
        }
    }

    /// Advances to the next timestamp marker, applying every scalar change
    /// passed on the way to the cell its identifier was last bound to, and
    /// returns the marker's resolved time; returns nothing once the body is
    /// exhausted.
    ///
    /// The returned timestamp describes the instant *before* the changes the
    /// following call applies, so a consumer wanting timestamp-to-state
    /// correlation must hold on to the previous timestamp.  Unknown tokens,
    /// changes for unbound identifiers and malformed or out-of-range
    /// timestamps are passed over silently.
    pub fn next(&mut self) -> (r: Option<Duration>)
        requires
            old(self).wf(),
        ensures
            final(self).wf(),
            final(self).tokens() == old(self).tokens(),
            final(self).spec_scale() == old(self).spec_scale(),
            final(self).spec_vars() == old(self).spec_vars(),
            final(self).pin_ids() == old(self).pin_ids(),
            ({
                let (v, n) = spec_scan(
                    old(self).tokens(),
                    old(self).body_idx(),
                    old(self).spec_scale().count,
                );
                &&& final(self).body_idx() == n
                &&& match v {
                    Some(c) => r == Some(
                        Duration { count: c, divisor: old(self).spec_scale().divisor },
                    ),
                    None => r is None,
                }
            }),
    {
        let ghost gt = tok_views(self.toks);
        let ghost sc = self.scale.count;
        loop
            invariant
                self.idx <= self.toks@.len(),
                gt == tok_views(self.toks),
                sc == self.scale.count,
                self.toks == old(self).toks,
                self.scale == old(self).scale,
                self.vars == old(self).vars,
                self.pins == old(self).pins,
                old(self).idx <= self.idx,
                spec_scan(gt, old(self).idx as int, sc) == spec_scan(gt, self.idx as int, sc),
            decreases self.toks@.len() - self.idx,
        {
            if self.idx >= self.toks.len() {
                return None;
            }
            let t: &Vec<u8> = &self.toks[self.idx];
            if t.len() >= 2 && t[0] == 35 {
                proof {
                    assert(t@.subrange(1, t@.len() as int) =~= t@.skip(1));
                }
                match parse_u64(slice_subrange(t.as_slice(), 1, t.len())) {
                    Some(ticks) => {
                        match sc_mul(self.scale.count, ticks) {
                            Some(c) => {
                                self.idx = self.idx + 1;
                                return Some(Duration { count: c, divisor: self.scale.divisor });
                            },
                            None => {
                                self.idx = self.idx + 1;
                            },
                        }
                    },
                    None => {
                        self.idx = self.idx + 1;
                    },
                }
            } else {
                if t.len() >= 2 {
                    match PinState::from_change_byte(t[0]) {
                        Some(state) => {
                            let id = slice_subrange(t.as_slice(), 1, t.len());
                            let mut j: usize = self.pins.len();
                            while j > 0
                                invariant
                                    j <= self.pins@.len(),
                                    self.pins == old(self).pins,
                                decreases j,
                            {
                                j -= 1;
                                if bytes_eq(self.pins[j].0.as_slice(), id) {
                                    self.pins[j].1.store(state, Ordering::SeqCst);
                                    break ;
                                }
                            }
                        },
                        None => {},
                    }
                }
                self.idx = self.idx + 1;
            }
        }
    }
}

/// Whether a stored scope path and a path query name the same byte
/// sequences.
fn path_matches(vp: &Vec<Vec<u8>>, q: &[&str]) -> (r: bool)
    ensures
        r == (tok_views(*vp) == path_bytes(q@)),
{
    if vp.len() != q.len() {
        proof {
            assert(tok_views(*vp).len() != path_bytes(q@).len());
        }
        return false;
    }
    let mut j: usize = 0;
    while j < vp.len()
        invariant
            j <= vp@.len(),
            vp@.len() == q@.len(),
            forall|m: int| 0 <= m < j ==> tok_views(*vp)[m] == path_bytes(q@)[m],
        decreases vp.len() - j,
    {
        if !bytes_eq(vp[j].as_slice(), q[j].as_bytes()) {
            proof {
                assert(tok_views(*vp)[j as int] == vp@[j as int]@);
                assert(path_bytes(q@)[j as int] == q@[j as int].spec_bytes());
            }
            return false;
        }
        j += 1;
    }
    proof {
        assert(tok_views(*vp) =~= path_bytes(q@));
    }
    true
}

/// Scales a tick count by the timescale count, if the product fits.
fn sc_mul(scale: u64, ticks: u64) -> (r: Option<u64>)
    ensures
        r == if ticks * scale <= u64::MAX {
            Some((ticks * scale) as u64)
        } else {
            None::<u64>
        },
{
    proof {
        assert(scale * ticks == ticks * scale) by (nonlinear_arith);
    }
    scale.checked_mul(ticks)
}

} // verus!
