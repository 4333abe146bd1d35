use vstd::prelude::*;
use vstd::string::{StrSliceExecFns, StringExecFns};

verus! {

/// A name, such as a ticker or a venue.
#[derive(Clone, Debug, PartialEq, Eq, Hash)]
pub struct Symbol {
    value: Box<String>,
}

impl View for Symbol {
    type V = Seq<char>;

    closed spec fn view(&self) -> Seq<char> {
        (*self.value)@
    }
}

impl Symbol {
    pub fn new(s: &str) -> (r: Symbol)
        ensures
            r@ == s@,
    {
        Symbol { value: Box::new(String::from_str(s)) }
    }
}

/// An instrument: its symbol on a venue.
#[derive(Clone, Debug, PartialEq, Eq, Hash)]
pub struct InstrumentId {
    pub symbol: Symbol,
    pub venue: Symbol,
}

/// The position of the first '.' of `s` at or after `from`, or the length of
/// `s` where none follows.
pub open spec fn dot_from(s: Seq<char>, from: int) -> int
    decreases s.len() - from,
{
    if from >= s.len() {
        s.len() as int
    } else if s[from] == '.' {
        from
    } else {
        dot_from(s, from + 1)
    }
}

/// The symbol part of a dotted id: everything before the first '.'.
pub open spec fn id_symbol(s: Seq<char>) -> Seq<char> {
    s.subrange(0, dot_from(s, 0))
}

/// The venue part of a dotted id: what lies between the first '.' and the
/// next one (or the end).
pub open spec fn id_venue(s: Seq<char>) -> Seq<char> {
    let d = dot_from(s, 0);
    s.subrange(d + 1, dot_from(s, d + 1))
}

proof fn lemma_dot_from_bounds(s: Seq<char>, from: int)
    requires
        0 <= from <= s.len(),
    ensures
        from <= dot_from(s, from) <= s.len(),
    decreases s.len() - from,
{
    if from < s.len() && s[from] != '.' {
        lemma_dot_from_bounds(s, from + 1);
    }
}

proof fn lemma_dot_from_finds(s: Seq<char>, from: int)
    requires
        0 <= from <= s.len(),
    ensures
        dot_from(s, from) < s.len() <==> exists|i: int| from <= i < s.len() && s[i] == '.',
        dot_from(s, from) < s.len() ==> s[dot_from(s, from)] == '.',
    decreases s.len() - from,
{
    if from < s.len() && s[from] != '.' {
        lemma_dot_from_finds(s, from + 1);
        if exists|i: int| from <= i < s.len() && s[i] == '.' {
            let i = choose|i: int| from <= i < s.len() && s[i] == '.';
            assert(i != from);
            assert(from + 1 <= i);
        }
    }
}

/// Whether `s` holds a '.'.
pub fn has_dot(s: &str) -> (r: bool)
    ensures
        r == s@.contains('.'),
{
    let len = s.unicode_len();
    let d = find_dot(s, len, 0);
    proof { lemma_dot_from_finds(s@, 0); }
    d < len
}

fn find_dot(s: &str, len: usize, from: usize) -> (r: usize)
    requires
        len == s@.len(),
        from <= len,
    ensures
        r == dot_from(s@, from as int),
{
    let mut i = from;
    while i < len && s.get_char(i) != '.'
        invariant
            from <= i <= len,
            len == s@.len(),
            dot_from(s@, i as int) == dot_from(s@, from as int),
        decreases len - i,
    {
        i = i + 1;
    }
    i
}

impl InstrumentId {
    pub fn new(symbol: Symbol, venue: Symbol) -> (r: InstrumentId)
        ensures
            r.symbol == symbol,
            r.venue == venue,
    {
        InstrumentId { symbol, venue }
    }

    /// Reads `<symbol>.<venue>`: the symbol is what precedes the first '.',
    /// the venue what follows it up to the next '.' or the end.
    pub fn from_dotted(s: &str) -> (r: InstrumentId)
        requires
            s@.contains('.'),
        ensures
            r.symbol@ == id_symbol(s@),
            r.venue@ == id_venue(s@),
    {
        let len = s.unicode_len();
        let d = find_dot(s, len, 0);
        proof {
            lemma_dot_from_bounds(s@, 0);
            lemma_dot_from_finds(s@, 0);
        }
        let symbol = Symbol::new(s.substring_char(0, d));
        let e = find_dot(s, len, d + 1);
        proof { lemma_dot_from_bounds(s@, d + 1); }
        let venue = Symbol::new(s.substring_char(d + 1, e));
        InstrumentId { symbol, venue }
    }

    /// The id for a string that may lack a '.': a dotted one is read as
    /// `from_dotted` reads it; one without a '.' is all symbol, on an empty
    /// venue.
    fn from_any(s: &str) -> (r: InstrumentId)
        ensures
            s@.contains('.') ==> r.symbol@ == id_symbol(s@) && r.venue@ == id_venue(s@),
            !s@.contains('.') ==> r.symbol@ == s@ && r.venue@.len() == 0,
    {
        if has_dot(s) {
            InstrumentId::from_dotted(s)
        } else {
            proof { reveal_strlit(""); }
            InstrumentId { symbol: Symbol::new(s), venue: Symbol::new("") }
        }
    }
}

/// `From` cannot refuse an input, so a string without a '.' becomes an id
/// on an empty venue; `has_dot` tells such strings apart beforehand.
impl From<&str> for InstrumentId {
    fn from(s: &str) -> (r: InstrumentId)
        ensures
            s@.contains('.') ==> r.symbol@ == id_symbol(s@) && r.venue@ == id_venue(s@),
            !s@.contains('.') ==> r.symbol@ == s@ && r.venue@.len() == 0,
    {
        InstrumentId::from_any(s)
    }
}

impl vstd::std_specs::convert::FromSpecImpl<&str> for InstrumentId {
    open spec fn obeys_from_spec() -> bool {
        false
    }

    open spec fn from_spec(s: &str) -> InstrumentId {
        arbitrary()
    }
}

impl From<&String> for InstrumentId {
    fn from(s: &String) -> (r: InstrumentId)
        ensures
            s@.contains('.') ==> r.symbol@ == id_symbol(s@) && r.venue@ == id_venue(s@),
            !s@.contains('.') ==> r.symbol@ == s@ && r.venue@.len() == 0,
    {
        InstrumentId::from_any(s.as_str())
    }
}

impl vstd::std_specs::convert::FromSpecImpl<&String> for InstrumentId {
    open spec fn obeys_from_spec() -> bool {
        false
    }

    open spec fn from_spec(s: &String) -> InstrumentId {
        arbitrary()
    }
}

/// A quote in a market, for an instrument.
#[derive(Clone, Debug, PartialEq, Eq, Hash)]
pub struct QuoteTick {
    pub instrument_id: InstrumentId,
}

impl QuoteTick {
    pub fn new(instrument_id: InstrumentId) -> (r: QuoteTick)
        ensures
            r.instrument_id == instrument_id,
    {
        QuoteTick { instrument_id }
    }
}

} // verus!
