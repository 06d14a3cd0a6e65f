use vstd::prelude::*;

verus! {

/// True when every character is in the ASCII range.
pub open spec fn all_ascii(s: Seq<char>) -> bool {
    forall|i: int| 0 <= i < s.len() ==> (#[trigger] s[i]) as int <= 127
}

/// ASCII lower-casing of one character code.
pub open spec fn lower_code(c: int) -> int {
    if 65 <= c && c <= 90 {
        c + 32
    } else {
        c
    }
}

/// ASCII upper-casing of one character code.
pub open spec fn upper_code(c: int) -> int {
    if 97 <= c && c <= 122 {
        c - 32
    } else {
        c
    }
}

/// `t` is `s` with every character mapped through `f` by its code.
pub open spec fn maps_codes(s: Seq<char>, t: Seq<char>, f: spec_fn(int) -> int) -> bool {
    &&& t.len() == s.len()
    &&& forall|i: int| 0 <= i < s.len() ==> (#[trigger] t[i]) as int == f(s[i] as int)
}

/// The full Unicode lower-case mapping of a string.
pub uninterp spec fn lower_of(s: Seq<char>) -> Seq<char>;

/// `t` is the lower-case form of `s`. On ASCII text the lower-case mapping
/// only turns `A`..=`Z` into `a`..=`z`.
pub open spec fn is_lower_form(s: Seq<char>, t: Seq<char>) -> bool {
    if all_ascii(s) {
        maps_codes(s, t, |c: int| lower_code(c))
    } else {
        t == lower_of(s)
    }
}

/// Relies on `str::to_lowercase`: the Unicode lower-case mapping, a function
/// of the characters alone, which on ASCII text maps `A`..=`Z` to `a`..=`z`
/// and keeps every other character.
#[verifier::external_body]
fn lowercase(s: &str) -> (r: String)
    ensures
        all_ascii(s@) ==> maps_codes(s@, r@, |c: int| lower_code(c)),
        !all_ascii(s@) ==> r@ == lower_of(s@),
{
    s.to_lowercase()
}

/// Reading a symbol's text back gives the same symbol: on ASCII text,
/// lower-casing what is already lower case changes nothing.
pub proof fn lemma_lower_form_idempotent(s: Seq<char>, a: Seq<char>, b: Seq<char>)
    requires
        all_ascii(s),
        is_lower_form(s, a),
        is_lower_form(a, b),
    ensures
        b == a,
{
    assert forall|i: int| 0 <= i < a.len() implies (#[trigger] a[i]) as int <= 127 by {
        assert(a[i] as int == lower_code(s[i] as int));
    }
    assert forall|i: int| 0 <= i < a.len() implies b[i] == a[i] by {
        assert(a[i] as int == lower_code(s[i] as int));
        assert(b[i] as int == lower_code(a[i] as int));
    }
    assert(a =~= b);
}

/// A currency or asset identifier such as `btc`, `eth` or `usdt`, always held
/// in lower case so that `BTC` and `btc` are the same key.
#[derive(Clone, Eq, PartialOrd, Ord, Hash, Debug)]
pub struct Symbol(String);

impl View for Symbol {
    type V = Seq<char>;

    closed spec fn view(&self) -> Seq<char> {
        self.0@
    }
}

impl PartialEq for Symbol {
    fn eq(&self, other: &Symbol) -> (r: bool)
        ensures
            r == (self@ == other@),
    {
        self.0 == other.0
    }
}

impl vstd::std_specs::cmp::PartialEqSpecImpl for Symbol {
    open spec fn obeys_eq_spec() -> bool {
        true
    }

    open spec fn eq_spec(&self, other: &Symbol) -> bool {
        self@ == other@
    }
}

impl Symbol {
    /// Builds the symbol of `input`, lower-casing it.
    pub fn new(input: &str) -> (r: Symbol)
        ensures
            is_lower_form(input@, r@),
    {
        Symbol(lowercase(input))
    }

    /// A copy of the symbol.
    pub fn duplicate(&self) -> (r: Symbol)
        ensures
            r@ == self@,
    {
        Symbol(self.0.clone())
    }

    /// The normalised text of the symbol.
    pub fn as_str(&self) -> (r: &str)
        ensures
            r@ == self@,
    {
        self.0.as_str()
    }
}

/// Two symbols built from the same text are equal.
pub proof fn lemma_lower_form_unique(s: Seq<char>, a: Seq<char>, b: Seq<char>)
    requires
        is_lower_form(s, a),
        is_lower_form(s, b),
    ensures
        a == b,
{
    if all_ascii(s) {
        assert forall|i: int| 0 <= i < a.len() implies a[i] == b[i] by {
            assert(a[i] as int == b[i] as int);
        }
        assert(a =~= b);
    }
}

/// Case does not matter to a symbol: for ASCII text `s` and its upper-case
/// form `u`, the symbols built from `s` and from `u` hold the same text.
pub proof fn lemma_symbol_ignores_case(s: Seq<char>, u: Seq<char>, a: Seq<char>, b: Seq<char>)
    requires
        all_ascii(s),
        maps_codes(s, u, |c: int| upper_code(c)),
        is_lower_form(s, a),
        is_lower_form(u, b),
    ensures
        a == b,
{
    assert forall|i: int| 0 <= i < u.len() implies (#[trigger] u[i]) as int <= 127 by {
        assert(u[i] as int == upper_code(s[i] as int));
    }
    assert forall|i: int| 0 <= i < a.len() implies a[i] == b[i] by {
        assert(a[i] as int == lower_code(s[i] as int));
        assert(b[i] as int == lower_code(u[i] as int));
        assert(u[i] as int == upper_code(s[i] as int));
    }
    assert(a =~= b);
}

/// Whether a future runs forever or expires.
#[derive(Clone, Copy, PartialEq, Eq, Structural, PartialOrd, Ord, Hash, Debug)]
pub enum FutureKind {
    Perpetual,
    Expiry,
}

impl Default for FutureKind {
    fn default() -> (r: FutureKind)
        ensures
            r == FutureKind::Perpetual,
    {
        FutureKind::Perpetual
    }
}

impl FutureKind {
    /// The display name of the kind.
    pub fn name(&self) -> (r: &'static str)
        ensures
            r@ == future_kind_name(*self),
    {
        match self {
            FutureKind::Perpetual => "Perpetual",
            FutureKind::Expiry => "Expiry",
        }
    }
}

pub open spec fn future_kind_name(k: FutureKind) -> Seq<char> {
    match k {
        FutureKind::Perpetual => "Perpetual"@,
        FutureKind::Expiry => "Expiry"@,
    }
}

/// The kind of a tradable product: spot, or a future of some kind.
#[derive(Clone, Copy, PartialEq, Eq, Structural, PartialOrd, Ord, Hash, Debug)]
pub enum InstrumentKind {
    Spot,
    Future(FutureKind),
}

impl Default for InstrumentKind {
    fn default() -> (r: InstrumentKind)
        ensures
            r == InstrumentKind::Spot,
    {
        InstrumentKind::Spot
    }
}

pub open spec fn kind_label(k: InstrumentKind) -> Seq<char> {
    match k {
        InstrumentKind::Spot => "Spot"@,
        InstrumentKind::Future(f) => "Future::"@ + future_kind_name(f),
    }
}

impl InstrumentKind {
    /// The display text of the kind: `Spot`, `Future::Perpetual` or
    /// `Future::Expiry`.
    pub fn label(&self) -> (r: String)
        ensures
            r@ == kind_label(*self),
    {
        match self {
            InstrumentKind::Spot => String::from_str("Spot"),
            InstrumentKind::Future(f) => {
                let mut s = String::from_str("Future::");
                s.append(f.name());
                s
            },
        }
    }
}

/// A tradable product: a base and a quote symbol and the product's kind.
#[derive(Clone, Eq, PartialOrd, Ord, Hash, Debug)]
pub struct Instrument {
    pub base: Symbol,
    pub quote: Symbol,
    pub kind: InstrumentKind,
}

/// The mathematical value of an instrument.
pub struct InstrumentView {
    pub base: Seq<char>,
    pub quote: Seq<char>,
    pub kind: InstrumentKind,
}

impl View for Instrument {
    type V = InstrumentView;

    open spec fn view(&self) -> InstrumentView {
        InstrumentView { base: self.base@, quote: self.quote@, kind: self.kind }
    }
}

impl PartialEq for Instrument {
    fn eq(&self, other: &Instrument) -> (r: bool)
        ensures
            r == (self@ == other@),
    {
        self.base == other.base && self.quote == other.quote && self.kind == other.kind
    }
}

impl vstd::std_specs::cmp::PartialEqSpecImpl for Instrument {
    open spec fn obeys_eq_spec() -> bool {
        true
    }

    open spec fn eq_spec(&self, other: &Instrument) -> bool {
        self@ == other@
    }
}

impl Instrument {
    /// Builds the instrument `base`/`quote` of the given kind, normalising
    /// both symbols.
    pub fn new(base: &str, quote: &str, kind: InstrumentKind) -> (r: Instrument)
        ensures
            is_lower_form(base@, r.base@),
            is_lower_form(quote@, r.quote@),
            r.kind == kind,
    {
        Instrument { base: Symbol::new(base), quote: Symbol::new(quote), kind }
    }

    /// The display text of the instrument, as in `(btc_usdt, Spot)`.
    pub fn label(&self) -> (r: String)
        ensures
            r@ == "("@ + self.base@ + "_"@ + self.quote@ + ", "@ + kind_label(self.kind) + ")"@,
    {
        let mut s = String::from_str("(");
        s.append(self.base.as_str());
        s.append("_");
        s.append(self.quote.as_str());
        s.append(", ");
        let k = self.kind.label();
        s.append(k.as_str());
        s.append(")");
        s
    }

    /// A copy of the instrument.
    pub fn duplicate(&self) -> (r: Instrument)
        ensures
            r@ == self@,
    {
        Instrument { base: self.base.duplicate(), quote: self.quote.duplicate(), kind: self.kind }
    }
}

} // verus!
