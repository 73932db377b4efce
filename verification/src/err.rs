//! Decode-failure taxonomy and the field path at which a failure occurred.

use vstd::prelude::*;

verus! {

broadcast use vstd::seq::group_seq_axioms;

/// The closed set of decode-failure kinds.
#[derive(Debug, Clone, Copy, PartialEq, Eq, Structural)]
pub enum ErrKind {
    /// The document has a key that the target shape does not declare.
    UnknownField,
    /// A required key is absent.
    MissingField,
    /// A discriminator value outside the closed tag set.
    UnknownVariant,
    /// A hex or date-time pattern mismatch, or a rejected URI string.
    InvalidScalarEncoding,
    /// A non-zero constraint violated.
    NumericDomainViolation,
    /// A value is present but of the wrong primitive kind.
    TypeMismatch,
}

/// One step of a field path: an object key or an array index.
#[derive(Debug, Clone, PartialEq)]
pub enum PathStep {
    Key(String),
    Index(usize),
}

impl PathStep {
    pub open spec fn text(&self) -> Seq<char> {
        match self {
            PathStep::Key(k) => seq!['.'] + k@,
            PathStep::Index(i) => seq!['['] + dec_digits(*i as nat) + seq![']'],
        }
    }
}

/// A decode failure: its kind, and the field path from the document root
/// (ordered keys and array indices) at which it occurred.
#[derive(Debug, Clone, PartialEq)]
pub struct DecodeError {
    pub kind: ErrKind,
    pub path: Vec<PathStep>,
}

impl DecodeError {
    /// A failure of the given kind at the current position.
    pub fn here(kind: ErrKind) -> (r: DecodeError)
        ensures
            r.kind == kind,
            r.path@ =~= Seq::<PathStep>::empty(),
    {
        DecodeError { kind, path: Vec::new() }
    }

    /// A failure of the given kind at the given key of the current object.
    pub fn at_key(kind: ErrKind, k: &String) -> (r: DecodeError)
        ensures
            r.kind == kind,
            r.path@ =~= seq![PathStep::Key(*k)],
    {
        let mut path: Vec<PathStep> = Vec::new();
        path.push(PathStep::Key(k.clone()));
        DecodeError { kind, path }
    }

    /// A failure of the given kind at the named field of the current
    /// object.
    pub fn at_name(kind: ErrKind, name: &str) -> (r: DecodeError)
        ensures
            r.kind == kind,
            r.path@.len() == 1,
            r.path@[0] matches PathStep::Key(k) && k@ == name@,
    {
        let mut path: Vec<PathStep> = Vec::new();
        path.push(PathStep::Key(name.to_owned()));
        DecodeError { kind, path }
    }

    /// The same failure, one object level deeper, under the named field.
    pub fn under_name(self, name: &str) -> (r: DecodeError)
        ensures
            r.kind == self.kind,
            r.path@.len() == self.path@.len() + 1,
            r.path@[0] matches PathStep::Key(k) && k@ == name@,
            r.path@.skip(1) =~= self.path@,
    {
        let mut r = self;
        r.path.insert(0, PathStep::Key(name.to_owned()));
        r
    }

    /// The same failure, one object level deeper.
    pub fn under_key(self, k: &String) -> (r: DecodeError)
        ensures
            r.kind == self.kind,
            r.path@ =~= seq![PathStep::Key(*k)] + self.path@,
    {
        let mut r = self;
        r.path.insert(0, PathStep::Key(k.clone()));
        r
    }

    /// The same failure, one array level deeper.
    pub fn under_index(self, i: usize) -> (r: DecodeError)
        ensures
            r.kind == self.kind,
            r.path@ =~= seq![PathStep::Index(i)] + self.path@,
    {
        let mut r = self;
        r.path.insert(0, PathStep::Index(i));
        r
    }

    /// The diagnostic text of this failure: its kind, then the path from the
    /// document root written `$`, `.key` and `[index]`.
    pub open spec fn text(&self) -> Seq<char> {
        kind_text(self.kind) + " at $"@ + path_text(self.path@)
    }
}

/// The fixed name of each failure kind.
pub open spec fn kind_text(k: ErrKind) -> Seq<char> {
    match k {
        ErrKind::UnknownField => "unknown field"@,
        ErrKind::MissingField => "missing field"@,
        ErrKind::UnknownVariant => "unknown variant"@,
        ErrKind::InvalidScalarEncoding => "invalid scalar encoding"@,
        ErrKind::NumericDomainViolation => "numeric domain violation"@,
        ErrKind::TypeMismatch => "type mismatch"@,
    }
}

/// The text of a whole path, steps in order.
pub open spec fn path_text(p: Seq<PathStep>) -> Seq<char>
    decreases p,
{
    if p.len() == 0 {
        Seq::empty()
    } else {
        path_text(p.drop_last()) + p.last().text()
    }
}

/// The decimal digits of `n`, most significant first.
pub open spec fn dec_digits(n: nat) -> Seq<char>
    decreases n,
{
    if n < 10 {
        seq![digit_char(n)]
    } else {
        dec_digits(n / 10) + seq![digit_char(n % 10)]
    }
}

/// The character of one decimal digit.
pub open spec fn digit_char(d: nat) -> char {
    if d == 0 {
        '0'
    } else if d == 1 {
        '1'
    } else if d == 2 {
        '2'
    } else if d == 3 {
        '3'
    } else if d == 4 {
        '4'
    } else if d == 5 {
        '5'
    } else if d == 6 {
        '6'
    } else if d == 7 {
        '7'
    } else if d == 8 {
        '8'
    } else {
        '9'
    }
}

/// The text of one decimal digit.
pub(crate) fn digit_str(d: usize) -> (r: &'static str)
    requires
        d < 10,
    ensures
        r@ =~= seq![digit_char(d as nat)],
{
    proof {
        reveal_strlit("0");
        reveal_strlit("1");
        reveal_strlit("2");
        reveal_strlit("3");
        reveal_strlit("4");
        reveal_strlit("5");
        reveal_strlit("6");
        reveal_strlit("7");
        reveal_strlit("8");
        reveal_strlit("9");
    }
    match d {
        0 => "0",
        1 => "1",
        2 => "2",
        3 => "3",
        4 => "4",
        5 => "5",
        6 => "6",
        7 => "7",
        8 => "8",
        _ => "9",
    }
}

/// The decimal text of `n`.
fn usize_string(n: usize) -> (r: String)
    ensures
        r@ =~= dec_digits(n as nat),
    decreases n,
{
    if n < 10 {
        digit_str(n).to_owned()
    } else {
        let mut s = usize_string(n / 10);
        s.append(digit_str(n % 10));
        s
    }
}

/// Renders a decode failure for diagnostics: the failure kind and the field
/// path from the document root at which it occurred.
pub fn display(e: &DecodeError) -> (r: String)
    ensures
        r@ =~= e.text(),
{
    let mut s: String = match e.kind {
        ErrKind::UnknownField => "unknown field".to_owned(),
        ErrKind::MissingField => "missing field".to_owned(),
        ErrKind::UnknownVariant => "unknown variant".to_owned(),
        ErrKind::InvalidScalarEncoding => "invalid scalar encoding".to_owned(),
        ErrKind::NumericDomainViolation => "numeric domain violation".to_owned(),
        ErrKind::TypeMismatch => "type mismatch".to_owned(),
    };
    s.append(" at $");
    let mut i: usize = 0;
    while i < e.path.len()
        invariant
            0 <= i <= e.path@.len(),
            s@ =~= kind_text(e.kind) + " at $"@ + path_text(e.path@.take(i as int)),
        decreases e.path@.len() - i,
    {
        proof {
            reveal_strlit(".");
            reveal_strlit("[");
            reveal_strlit("]");
        }
        match &e.path[i] {
            PathStep::Key(k) => {
                s.append(".");
                s.append(k.as_str());
            },
            PathStep::Index(ix) => {
                s.append("[");
                let digits = usize_string(*ix);
                s.append(digits.as_str());
                s.append("]");
            },
        }
        proof {
            assert(e.path@.take(i + 1).drop_last() =~= e.path@.take(i as int));
            assert(e.path@.take(i + 1).last() == e.path@[i as int]);
        }
        i = i + 1;
    }
    proof {
        assert(e.path@.take(e.path@.len() as int) =~= e.path@);
    }
    s
}

} // verus!
