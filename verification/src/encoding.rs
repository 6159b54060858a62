//! Objective-C runtime type-encoding strings: chomping one encoding off
//! the front of a string, and typed views of pointer and structure
//! encodings.
//!
//! The grammar is small: a primitive is a single tag character, a pointer
//! is `^` followed by an encoding, and a structure is `{name=fields}` with
//! brace-balanced contents.

use vstd::prelude::*;

use crate::selector::str_eq;

verus! {

/// A primitive encoding tag.
#[derive(Debug, Clone, Copy, PartialEq, Eq, Structural)]
pub enum Primitive {
    Char,
    Int,
}

/// Whether a character is a primitive encoding tag.
pub open spec fn primitive_char(c: char) -> bool {
    c == 'c' || c == 'i'
}

/// The position one past the brace that closes a structure encoding:
/// scanning from `i` with `depth` open braces, the first position where
/// the depth returns to zero.
pub open spec fn struct_close(s: Seq<char>, i: int, depth: int) -> Option<int>
    decreases s.len() - i,
{
    if i < 0 || i >= s.len() {
        None
    } else {
        let d2 = if s[i] == '{' {
            depth + 1
        } else if s[i] == '}' {
            depth - 1
        } else {
            depth
        };
        if d2 == 0 {
            Some(i + 1)
        } else {
            struct_close(s, i + 1, d2)
        }
    }
}

/// The length of the encoding at the front of `s`, if `s` begins with
/// one: a pointer head covers `^` plus its pointee, a structure head runs
/// to its matching closing brace, and a primitive head is one character.
pub open spec fn token_len(s: Seq<char>) -> Option<int>
    decreases s.len(),
{
    if s.len() == 0 {
        None
    } else if s[0] == '^' {
        match token_len(s.skip(1)) {
            Some(n) => Some(n + 1),
            None => None,
        }
    } else if s[0] == '{' {
        struct_close(s, 1, 1)
    } else if primitive_char(s[0]) {
        Some(1)
    } else {
        None
    }
}

/// A closing position lies strictly past the scan start and within the
/// string.
pub proof fn lemma_struct_close_bounds(s: Seq<char>, i: int, depth: int)
    requires
        0 <= i,
        struct_close(s, i, depth) is Some,
    ensures
        i < struct_close(s, i, depth)->0 <= s.len(),
    decreases s.len() - i,
{
    if i < s.len() {
        let d2 = if s[i] == '{' {
            depth + 1
        } else if s[i] == '}' {
            depth - 1
        } else {
            depth
        };
        if d2 != 0 {
            lemma_struct_close_bounds(s, i + 1, d2);
        }
    }
}

/// A head token is nonempty and no longer than the string.
pub proof fn lemma_token_len_bounds(s: Seq<char>)
    requires
        token_len(s) is Some,
    ensures
        1 <= token_len(s)->0 <= s.len(),
    decreases s.len(),
{
    if s.len() > 0 && s[0] == '^' {
        lemma_token_len_bounds(s.skip(1));
    } else if s.len() > 0 && s[0] == '{' {
        lemma_struct_close_bounds(s, 1, 1);
    }
}

/// The integer value of an optional token length.
pub open spec fn opt_len(r: Option<usize>) -> Option<int> {
    match r {
        Some(u) => Some(u as int),
        None => None,
    }
}

/// Chomps a pointer encoding off the front of `s`: the length of the `^`
/// head together with the encoding it points to, if both are present.
pub fn chomp_ptr(s: &str) -> (r: Option<usize>)
    ensures
        opt_len(r) == (if s@.len() > 0 && s@[0] == '^' {
            token_len(s@)
        } else {
            None::<int>
        }),
    decreases s@.len(), 0int,
{
    let n = s.unicode_len();
    if n == 0 || s.get_char(0) != '^' {
        return None;
    }
    let rest = s.substring_char(1, n);
    proof {
        assert(rest@ =~= s@.skip(1));
    }
    let (h, _t) = chomp(rest);
    match h {
        Some(h) => {
            proof {
                lemma_token_len_bounds(rest@);
            }
            let hl = h.unicode_len();
            Some(hl + 1)
        },
        None => None,
    }
}

/// Chomps a structure encoding off the front of `s`: the length of the
/// brace-balanced `{...}` head, if the braces balance.
#[verifier::loop_isolation(false)]
pub fn chomp_struct(s: &str) -> (r: Option<usize>)
    ensures
        opt_len(r) == (if s@.len() > 0 && s@[0] == '{' {
            struct_close(s@, 1, 1)
        } else {
            None::<int>
        }),
{
    let n = s.unicode_len();
    if n == 0 || s.get_char(0) != '{' {
        return None;
    }
    let mut depth: usize = 1;
    let mut i: usize = 1;
    while i < n
        invariant
            1 <= i <= n,
            n == s@.len(),
            1 <= depth <= i,
            struct_close(s@, 1, 1) == struct_close(s@, i as int, depth as int),
        decreases n - i,
    {
        let b = s.get_char(i);
        if b == '{' {
            depth += 1;
        } else if b == '}' {
            depth -= 1;
            if depth == 0 {
                return Some(i + 1);
            }
        }
        i += 1;
    }
    None
}

/// Chomps one primitive encoding off the front of `s`, returning the tag
/// and the rest of the string.
fn chomp_primitive(s: &str) -> (r: (Option<Primitive>, &str))
    ensures
        s@.len() > 0 && s@[0] == 'c' ==> (r.0 == Some(Primitive::Char) && r.1@ == s@.skip(1)),
        s@.len() > 0 && s@[0] == 'i' ==> (r.0 == Some(Primitive::Int) && r.1@ == s@.skip(1)),
        s@.len() == 0 || !primitive_char(s@[0]) ==> (r.0 is None && r.1@ == s@),
{
    let n = s.unicode_len();
    if n == 0 {
        return (None, s);
    }
    let c = s.get_char(0);
    if c == 'c' {
        let t = s.substring_char(1, n);
        proof {
            assert(t@ =~= s@.skip(1));
        }
        (Some(Primitive::Char), t)
    } else if c == 'i' {
        let t = s.substring_char(1, n);
        proof {
            assert(t@ =~= s@.skip(1));
        }
        (Some(Primitive::Int), t)
    } else {
        (None, s)
    }
}

/// Chomps the first encoding off the front of `s`: the head and the tail
/// when `s` begins with a well-formed encoding, or no head and `s` itself
/// when it does not.
pub fn chomp(s: &str) -> (r: (Option<&str>, &str))
    ensures
        match token_len(s@) {
            Some(n) => r.0 matches Some(h) && h@ == s@.take(n) && r.1@ == s@.skip(n),
            None => r.0 is None && r.1@ == s@,
        },
    decreases s@.len(), 1int,
{
    let n = s.unicode_len();
    let head_len: Option<usize> = match chomp_ptr(s) {
        Some(l) => Some(l),
        None => {
            match chomp_struct(s) {
                Some(l) => Some(l),
                None => {
                    let (h, t) = chomp_primitive(s);
                    if h.is_some() {
                        Some(1)
                    } else {
                        None
                    }
                },
            }
        },
    };
    match head_len {
        Some(l) => {
            proof {
                lemma_token_len_bounds(s@);
            }
            let h = s.substring_char(0, l);
            let t = s.substring_char(l, n);
            proof {
                assert(h@ =~= s@.take(l as int));
                assert(t@ =~= s@.skip(l as int));
            }
            (Some(h), t)
        },
        None => (None, s),
    }
}

/// A type-encoding string, read as one encoding.
#[derive(Debug, Clone, PartialEq, Eq)]
pub struct StrEncoding {
    pub s: String,
}

/// A type-encoding string known to begin with the pointer tag.
#[derive(Debug, Clone, PartialEq, Eq)]
pub struct StrPointerEncoding {
    pub s: String,
}

/// A type-encoding string known to begin with the structure tag.
#[derive(Debug, Clone, PartialEq, Eq)]
pub struct StrStructEncoding {
    pub s: String,
}

impl View for StrEncoding {
    type V = Seq<char>;

    open spec fn view(&self) -> Seq<char> {
        self.s@
    }
}

impl View for StrPointerEncoding {
    type V = Seq<char>;

    open spec fn view(&self) -> Seq<char> {
        self.s@
    }
}

impl View for StrStructEncoding {
    type V = Seq<char>;

    open spec fn view(&self) -> Seq<char> {
        self.s@
    }
}

/// The shape of one encoding, by its leading character.
#[derive(Debug, Clone, PartialEq, Eq)]
pub enum Descriptor {
    Primitive(Primitive),
    Pointer(StrPointerEncoding),
    Struct(StrStructEncoding),
}

/// The encodings a descriptor can be taken of: a pointer, a structure, or
/// exactly one primitive tag.
pub open spec fn descriptor_ok(s: Seq<char>) -> bool {
    s.len() > 0 && (s[0] == '^' || s[0] == '{' || (s.len() == 1 && primitive_char(s[0])))
}

impl StrEncoding {
    /// Wraps a string as an encoding without validating it.
    pub fn new_unchecked(s: &str) -> (r: StrEncoding)
        ensures
            r@ == s@,
    {
        StrEncoding { s: s.to_owned() }
    }

    /// The underlying string.
    pub fn as_str(&self) -> (r: &str)
        ensures
            r@ == self@,
    {
        self.s.as_str()
    }

    /// Classifies the encoding by its leading character.
    pub fn descriptor(&self) -> (r: Descriptor)
        requires
            descriptor_ok(self@),
        ensures
            self@[0] == '^' ==> (r matches Descriptor::Pointer(p) && p@ == self@),
            self@[0] == '{' ==> (r matches Descriptor::Struct(st) && st@ == self@),
            primitive_char(self@[0]) && self@.len() == 1 ==> r == Descriptor::Primitive(
                if self@[0] == 'c' {
                    Primitive::Char
                } else {
                    Primitive::Int
                },
            ),
    {
        let c = self.s.as_str().get_char(0);
        if c == '^' {
            Descriptor::Pointer(StrPointerEncoding { s: self.s.clone() })
        } else if c == '{' {
            Descriptor::Struct(StrStructEncoding { s: self.s.clone() })
        } else if c == 'c' {
            Descriptor::Primitive(Primitive::Char)
        } else {
            Descriptor::Primitive(Primitive::Int)
        }
    }
}

impl StrPointerEncoding {
    /// Wraps a string as a pointer encoding without validating it.
    pub fn new_unchecked(s: &str) -> (r: StrPointerEncoding)
        ensures
            r@ == s@,
    {
        StrPointerEncoding { s: s.to_owned() }
    }

    /// The underlying string.
    pub fn as_str(&self) -> (r: &str)
        ensures
            r@ == self@,
    {
        self.s.as_str()
    }

    /// A pointer encoding is its own descriptor.
    pub fn descriptor(&self) -> (r: Descriptor)
        ensures
            r matches Descriptor::Pointer(p) && p@ == self@,
    {
        Descriptor::Pointer(StrPointerEncoding { s: self.s.clone() })
    }

    /// The encoding of what the pointer points to: everything past the
    /// pointer tag.
    pub fn pointee(&self) -> (r: StrEncoding)
        requires
            self@.len() >= 1,
        ensures
            r@ == self@.skip(1),
    {
        let n = self.s.as_str().unicode_len();
        let rest = self.s.as_str().substring_char(1, n);
        proof {
            assert(rest@ =~= self@.skip(1));
        }
        StrEncoding { s: rest.to_owned() }
    }
}

/// The index of the first `=` in `s`, if there is one.
pub open spec fn first_eq(s: Seq<char>) -> Option<int>
    decreases s.len(),
{
    if s.len() == 0 {
        None
    } else if s[0] == '=' {
        Some(0)
    } else {
        match first_eq(s.skip(1)) {
            Some(p) => Some(p + 1),
            None => None,
        }
    }
}

/// What `first_eq` finds: the position of an `=` that no earlier position
/// holds, or the absence of any `=` at all.
pub proof fn lemma_first_eq(s: Seq<char>)
    ensures
        match first_eq(s) {
            Some(p) => 0 <= p < s.len() && s[p] == '=' && forall|j: int|
                0 <= j < p ==> s[j] != '=',
            None => forall|j: int| 0 <= j < s.len() ==> s[j] != '=',
        },
    decreases s.len(),
{
    if s.len() > 0 && s[0] != '=' {
        lemma_first_eq(s.skip(1));
        let t = s.skip(1);
        match first_eq(t) {
            Some(p) => {
                assert(s[p + 1] == t[p]);
                assert forall|j: int| 0 <= j < p + 1 implies s[j] != '=' by {
                    if j > 0 {
                        assert(s[j] == t[j - 1]);
                    }
                }
            },
            None => {
                assert forall|j: int| 0 <= j < s.len() implies s[j] != '=' by {
                    if j > 0 {
                        assert(s[j] == t[j - 1]);
                    }
                }
            },
        }
    }
}

/// Whether `s` is a back-to-back sequence of well-formed encodings.
pub open spec fn tokens_ok(s: Seq<char>) -> bool
    decreases s.len(),
{
    s.len() == 0 || match token_len(s) {
        Some(n) => 1 <= n <= s.len() && tokens_ok(s.skip(n)),
        None => false,
    }
}

/// The encodings that make up a back-to-back sequence, in order.
pub open spec fn tokens_of(s: Seq<char>) -> Seq<Seq<char>>
    decreases s.len(),
{
    if s.len() == 0 {
        Seq::<Seq<char>>::empty()
    } else {
        match token_len(s) {
            Some(n) => if 1 <= n <= s.len() {
                seq![s.take(n)] + tokens_of(s.skip(n))
            } else {
                Seq::<Seq<char>>::empty()
            },
            None => Seq::<Seq<char>>::empty(),
        }
    }
}

/// A consumer that compares a structure's fields one at a time, against
/// the encodings it still expects.
pub trait FieldsComparator: Sized {
    /// The encodings this comparator still expects, in order.
    spec fn remaining(&self) -> Seq<Seq<char>>;

    /// Compares the next expected encoding against `enc`: a match consumes
    /// it.
    fn eq_next(&mut self, enc: &StrEncoding) -> (r: bool)
        ensures
            r <==> (old(self).remaining().len() > 0 && enc@ == old(self).remaining()[0]),
            r ==> final(self).remaining() == old(self).remaining().skip(1),
    ;

    /// Whether every expected encoding has been consumed.
    fn is_finished(self) -> (r: bool)
        ensures
            r <==> self.remaining().len() == 0,
    ;
}

/// A comparator over a fixed list of expected encodings.
#[derive(Debug, Clone, PartialEq, Eq)]
pub struct ExpectedFieldsComparator {
    pub expected: Vec<String>,
    pub pos: usize,
}

impl ExpectedFieldsComparator {
    /// A comparator that expects exactly the given encodings, in order.
    pub fn new(expected: Vec<String>) -> (r: ExpectedFieldsComparator)
        ensures
            r.remaining() == expected@.map_values(|t: String| t@),
    {
        let r = ExpectedFieldsComparator { expected, pos: 0 };
        proof {
            assert(r.remaining() =~= r.expected@.map_values(|t: String| t@));
        }
        r
    }
}

impl FieldsComparator for ExpectedFieldsComparator {
    open spec fn remaining(&self) -> Seq<Seq<char>> {
        if self.pos <= self.expected@.len() {
            self.expected@.map_values(|t: String| t@).skip(self.pos as int)
        } else {
            Seq::<Seq<char>>::empty()
        }
    }

    fn eq_next(&mut self, enc: &StrEncoding) -> (r: bool) {
        if self.pos < self.expected.len() {
            let ok = str_eq(self.expected[self.pos].as_str(), enc.as_str());
            if ok {
                proof {
                    assert(old(self).remaining()[0] == self.expected@[self.pos as int]@);
                }
                self.pos += 1;
                proof {
                    assert(self.remaining() =~= old(self).remaining().skip(1));
                }
                true
            } else {
                false
            }
        } else {
            false
        }
    }

    fn is_finished(self) -> (r: bool) {
        self.pos >= self.expected.len()
    }
}

impl StrStructEncoding {
    /// Wraps a string as a structure encoding without validating it.
    pub fn new_unchecked(s: &str) -> (r: StrStructEncoding)
        ensures
            r@ == s@,
    {
        StrStructEncoding { s: s.to_owned() }
    }

    /// The underlying string.
    pub fn as_str(&self) -> (r: &str)
        ensures
            r@ == self@,
    {
        self.s.as_str()
    }

    /// A structure encoding is its own descriptor.
    pub fn descriptor(&self) -> (r: Descriptor)
        ensures
            r matches Descriptor::Struct(st) && st@ == self@,
    {
        Descriptor::Struct(StrStructEncoding { s: self.s.clone() })
    }

    /// The structure's name: everything between the opening brace and the
    /// first `=`.
    pub fn name(&self) -> (r: &str)
        requires
            first_eq(self@) matches Some(p) && 1 <= p,
        ensures
            r@ == self@.subrange(1, first_eq(self@)->0),
    {
        proof {
            lemma_first_eq(self@);
        }
        let sep = find_first_eq(self.s.as_str());
        self.s.as_str().substring_char(1, sep)
    }

    /// Compares the structure's fields, in order, against a comparator:
    /// true exactly when the comparator expects the structure's field
    /// encodings and nothing else.
    #[verifier::loop_isolation(false)]
    pub fn fields_eq<F: FieldsComparator>(&self, other: F) -> (r: bool)
        requires
            first_eq(self@) matches Some(p) && 1 <= p && p + 1 <= self@.len() - 1,
            tokens_ok(self@.subrange(first_eq(self@)->0 + 1, self@.len() - 1)),
        ensures
            r <==> other.remaining() == tokens_of(
                self@.subrange(first_eq(self@)->0 + 1, self@.len() - 1),
            ),
    {
        proof {
            lemma_first_eq(self@);
        }
        let n = self.s.as_str().unicode_len();
        let sep = find_first_eq(self.s.as_str());
        let ghost full = self@.subrange(sep as int + 1, n as int - 1);
        let mut comp = other;
        let mut pos: usize = sep + 1;
        let ghost k: int = 0;
        proof {
            assert(full.skip(0) =~= full);
        }
        while pos < n - 1
            invariant
                sep + 1 <= pos <= n - 1,
                self@.subrange(pos as int, n as int - 1) =~= full.skip(pos - (sep + 1)),
                tokens_ok(full.skip(pos - (sep + 1))),
                tokens_of(full) == tokens_of(full).take(k) + tokens_of(full.skip(pos - (sep + 1))),
                0 <= k <= tokens_of(full).len(),
                other.remaining().len() >= k,
                other.remaining().take(k) == tokens_of(full).take(k),
                comp.remaining() == other.remaining().skip(k),
            decreases n - 1 - pos,
        {
            let ghost rest = full.skip(pos - (sep + 1));
            let region = self.s.as_str().substring_char(pos, n - 1);
            proof {
                assert(region@ =~= rest);
                lemma_token_len_bounds(rest);
            }
            let (h, _t) = chomp(region);
            let h = match h {
                Some(h) => h,
                None => {
                    proof {
                        assert(false);
                    }
                    region
                },
            };
            let enc = StrEncoding::new_unchecked(h);
            let ghost tok = rest.take(token_len(rest)->0);
            proof {
                assert(tokens_of(rest)[0] == tok);
            }
            if !comp.eq_next(&enc) {
                proof {
                    if other.remaining() == tokens_of(full) {
                        assert(other.remaining().skip(k) =~= tokens_of(full).skip(k));
                        assert(tokens_of(full).skip(k) =~= tokens_of(full.skip(
                            pos - (sep + 1),
                        )));
                        assert(comp.remaining()[0] == tok);
                        assert(false);
                    }
                }
                return false;
            }
            let hl = h.unicode_len();
            proof {
                assert(tokens_of(full).take(k + 1) =~= tokens_of(full).take(k) + seq![tok]);
                assert(other.remaining().take(k + 1) =~= other.remaining().take(k) + seq![
                    other.remaining()[k],
                ]);
                assert(other.remaining()[k] == other.remaining().skip(k)[0]);
                assert(tokens_of(full).skip(k) =~= tokens_of(full.skip(pos - (sep + 1))));
                assert(rest.skip(token_len(rest)->0) =~= full.skip(
                    pos + token_len(rest)->0 - (sep + 1),
                ));
                assert(tokens_of(full) =~= tokens_of(full).take(k + 1) + tokens_of(
                    rest.skip(token_len(rest)->0),
                ));
                assert(self@.subrange(pos as int + hl as int, n as int - 1) =~= rest.skip(
                    hl as int,
                ));
            }
            pos += hl;
            proof {
                k = k + 1;
            }
        }
        proof {
            assert(full.skip(pos - (sep + 1)) =~= Seq::<char>::empty());
            assert(tokens_of(Seq::<char>::empty()) =~= Seq::<Seq<char>>::empty());
            assert(tokens_of(full) =~= tokens_of(full).take(k));
            assert(k == tokens_of(full).len());
        }
        let finished = comp.is_finished();
        proof {
            if finished {
                assert(other.remaining() =~= other.remaining().take(k));
            }
            if other.remaining() == tokens_of(full) {
                assert(other.remaining().skip(k) =~= Seq::<Seq<char>>::empty());
            }
        }
        finished
    }
}

/// Finds the first `=` in a string whose spec position is known to exist.
#[verifier::loop_isolation(false)]
fn find_first_eq(s: &str) -> (r: usize)
    requires
        first_eq(s@) is Some,
    ensures
        r as int == first_eq(s@)->0,
{
    proof {
        lemma_first_eq(s@);
    }
    let n = s.unicode_len();
    let mut i: usize = 0;
    while i < n
        invariant
            i <= n,
            n == s@.len(),
            first_eq(s@) is Some,
            forall|j: int| 0 <= j < i ==> s@[j] != '=',
        decreases n - i,
    {
        if s.get_char(i) == '=' {
            proof {
                lemma_first_eq(s@);
            }
            return i;
        }
        i += 1;
    }
    proof {
        lemma_first_eq(s@);
        assert(false);
    }
    0
}

/// A type-encoding string held in an owned buffer.
#[derive(Debug, Clone, PartialEq, Eq)]
pub struct StringEncoding {
    pub buf: String,
}

impl View for StringEncoding {
    type V = Seq<char>;

    open spec fn view(&self) -> Seq<char> {
        self.buf@
    }
}

impl StringEncoding {
    /// Wraps an owned string as an encoding without validating it.
    pub fn new_unchecked(s: String) -> (r: StringEncoding)
        ensures
            r@ == s@,
    {
        StringEncoding { buf: s }
    }

    /// The underlying string.
    pub fn as_str(&self) -> (r: &str)
        ensures
            r@ == self@,
    {
        self.buf.as_str()
    }
}

} // verus!
