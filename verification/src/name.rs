//! Hierarchical metric names, parsed from colon-delimited strings.
use vstd::prelude::*;

verus! {

/// A hierarchical name: either a bare name or a namespace wrapping a
/// nested name, as in `"ultrasonic:distance"`. Parsing is total; the
/// view of a name is its sequence of segments, outermost first.
#[derive(Debug, PartialEq, Eq, PartialOrd, Ord, Hash)]
pub enum MetricName {
    Namespace { namespace: String, name: Box<MetricName> },
    Name(String),
}

/// The segments of a name, outermost namespace first, always nonempty.
pub open spec fn name_segments(n: MetricName) -> Seq<Seq<char>>
    decreases n,
{
    match n {
        MetricName::Name(s) => seq![s@],
        MetricName::Namespace { namespace, name } => seq![namespace@] + name_segments(*name),
    }
}

impl View for MetricName {
    type V = Seq<Seq<char>>;

    open spec fn view(&self) -> Seq<Seq<char>> {
        name_segments(*self)
    }
}

/// Index of the first colon in a character sequence, or its length if
/// there is none.
pub open spec fn spec_first_colon(s: Seq<char>) -> nat
    decreases s.len(),
{
    if s.len() == 0 {
        0
    } else if s[0] == ':' {
        0
    } else {
        1 + spec_first_colon(s.drop_first())
    }
}

proof fn lemma_first_colon(s: Seq<char>)
    ensures
        spec_first_colon(s) <= s.len(),
        forall|j: int| 0 <= j < spec_first_colon(s) ==> s[j] != ':',
        spec_first_colon(s) < s.len() ==> s[spec_first_colon(s) as int] == ':',
    decreases s.len(),
{
    if s.len() == 0 {
    } else if s[0] == ':' {
    } else {
        lemma_first_colon(s.drop_first());
        assert forall|j: int| 0 <= j < spec_first_colon(s) implies s[j] != ':' by {
            if j > 0 {
                assert(s.drop_first()[j - 1] != ':');
            }
        }
    }
}

/// The colon-separated segments of a character sequence. A sequence
/// without a colon is one segment; each colon ends a segment.
pub open spec fn spec_split_colons(s: Seq<char>) -> Seq<Seq<char>>
    decreases s.len(),
{
    let i = spec_first_colon(s);
    if i >= s.len() {
        seq![s]
    } else {
        seq![s.take(i as int)] + spec_split_colons(s.skip(i as int + 1))
    }
}

/// Position of the first colon of a string, or its character length.
fn find_colon(s: &str) -> (i: usize)
    ensures
        i as nat == spec_first_colon(s@),
{
    let n = s.unicode_len();
    let mut i: usize = 0;
    while i < n
        invariant
            i <= n,
            n == s@.len(),
            forall|j: int| 0 <= j < i ==> s@[j] != ':',
        decreases n - i,
    {
        if s.get_char(i) == ':' {
            proof {
                lemma_first_colon(s@);
            }
            return i;
        }
        i += 1;
    }
    proof {
        lemma_first_colon(s@);
    }
    n
}

impl Clone for MetricName {
    fn clone(&self) -> (res: Self)
        ensures
            res == *self,
        decreases self,
    {
        match self {
            MetricName::Name(s) => MetricName::Name(s.clone()),
            MetricName::Namespace { namespace, name } => MetricName::Namespace {
                namespace: namespace.clone(),
                name: Box::new((**name).clone()),
            },
        }
    }
}

impl MetricName {
    /// A bare name with no namespace.
    pub fn name(name: &str) -> (r: MetricName)
        ensures
            r@ == seq![name@],
    {
        MetricName::Name(name.to_owned())
    }

    /// A namespace wrapped around a nested name.
    pub fn namespace(namespace: &str, name: MetricName) -> (r: MetricName)
        ensures
            r@ == seq![namespace@] + name@,
    {
        MetricName::Namespace { namespace: namespace.to_owned(), name: Box::new(name) }
    }

    /// Parse a colon-delimited hierarchical name. Total: a string
    /// without a colon becomes a single flat name.
    pub fn parse(s: &str) -> (r: MetricName)
        ensures
            r@ == spec_split_colons(s@),
        decreases s@.len(),
    {
        let n = s.unicode_len();
        let i = find_colon(s);
        if i >= n {
            MetricName::Name(s.to_owned())
        } else {
            let head = s.substring_char(0, i);
            let rest = s.substring_char(i + 1, n);
            let tail = MetricName::parse(rest);
            proof {
                assert(head@ =~= s@.take(i as int));
                assert(rest@ =~= s@.skip(i as int + 1));
            }
            MetricName::Namespace { namespace: head.to_owned(), name: Box::new(tail) }
        }
    }

    /// The segments of this name, outermost namespace first.
    pub fn flatten(&self) -> (r: Vec<String>)
        ensures
            r@.map_values(|x: String| x@) == self@,
        decreases self,
    {
        match self {
            MetricName::Name(s) => {
                let mut v: Vec<String> = Vec::new();
                v.push(s.clone());
                proof {
                    assert(v@.map_values(|x: String| x@) =~= self@);
                }
                v
            },
            MetricName::Namespace { namespace, name } => {
                let mut v: Vec<String> = Vec::new();
                v.push(namespace.clone());
                let mut rest = name.flatten();
                v.append(&mut rest);
                proof {
                    assert(v@.map_values(|x: String| x@) =~= self@);
                }
                v
            },
        }
    }
}

} // verus!
