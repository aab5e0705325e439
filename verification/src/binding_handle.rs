//! The identifier under which an alignment feedback filter is known.

use vstd::prelude::*;
use std::cmp::Ordering;
use vstd::std_specs::cmp::PartialEqSpecImpl;
use vstd::std_specs::cmp::PartialOrdSpecImpl;

verus! {

/// A unique id that is associated with an alignment feedback filter.
///
/// The id is its text: two ids are equal exactly when their texts are.
#[derive(Debug, Eq, Ord, Hash)]
pub struct AlignmentFeedbackId(pub String);

impl View for AlignmentFeedbackId {
    type V = Seq<char>;

    open spec fn view(&self) -> Seq<char> {
        self.0@
    }
}

/// The Unicode code point of a character.
pub open spec fn code_point(c: char) -> int {
    c as int
}

/// Lexicographic order on texts: `a` comes before `b` when, at the first
/// place where they differ, `a` has ended or holds the smaller code point.
pub open spec fn text_before(a: Seq<char>, b: Seq<char>) -> bool {
    exists|i: int|
        0 <= i <= a.len() && i < b.len() && #[trigger] a.take(i) == b.take(i) && (i == a.len()
            || code_point(a[i]) < code_point(b[i]))
}

/// How two texts compare in lexicographic order.
pub open spec fn text_order(a: Seq<char>, b: Seq<char>) -> Ordering {
    if a == b {
        Ordering::Equal
    } else if text_before(a, b) {
        Ordering::Less
    } else {
        Ordering::Greater
    }
}

/// Of two texts exactly one holds: they are equal, the first comes
/// before the second, or the second comes before the first. So
/// `text_order` is `Greater` exactly where the second text comes first.
pub proof fn lemma_text_order_is_total(a: Seq<char>, b: Seq<char>)
    ensures
        !(a == b && text_before(a, b)),
        !(text_before(a, b) && text_before(b, a)),
        a == b || text_before(a, b) || text_before(b, a),
        text_order(a, b) == Ordering::Greater <==> text_before(b, a),
        text_order(a, b) == Ordering::Less <==> text_order(b, a) == Ordering::Greater,
{
    lemma_text_before_is_asymmetric(a, b);
    lemma_text_before_is_asymmetric(b, a);
    if a != b {
        assert(a.take(0) == b.take(0));
        lemma_unequal_texts_are_ordered(a, b, 0);
    }
}

/// A text that comes before another differs from it and does not come
/// after it.
proof fn lemma_text_before_is_asymmetric(a: Seq<char>, b: Seq<char>)
    ensures
        text_before(a, b) ==> a != b && !text_before(b, a),
{
    if text_before(a, b) {
        let i = choose|i: int|
            0 <= i <= a.len() && i < b.len() && #[trigger] a.take(i) == b.take(i) && (i == a.len()
                || code_point(a[i]) < code_point(b[i]));
        if text_before(b, a) {
            let j = choose|j: int|
                0 <= j <= b.len() && j < a.len() && #[trigger] b.take(j) == a.take(j) && (j
                    == b.len() || code_point(b[j]) < code_point(a[j]));
            if i < j {
                assert(b.take(j)[i] == a.take(j)[i]);
            } else if j < i {
                assert(a.take(i)[j] == b.take(i)[j]);
            }
        }
    }
}

/// Texts that agree on their first `i` characters and are not equal are
/// ordered one way or the other.
proof fn lemma_unequal_texts_are_ordered(a: Seq<char>, b: Seq<char>, i: int)
    requires
        a != b,
        0 <= i <= a.len(),
        i <= b.len(),
        a.take(i) == b.take(i),
    ensures
        text_before(a, b) || text_before(b, a),
    decreases a.len() - i,
{
    if i == a.len() {
        if i == b.len() {
            assert(a.take(i) == a);
            assert(b.take(i) == b);
        } else {
            assert(text_before(a, b));
        }
    } else if i == b.len() {
        assert(b.take(i) == a.take(i));
        assert(text_before(b, a));
    } else if code_point(a[i]) < code_point(b[i]) {
        assert(text_before(a, b));
    } else if code_point(b[i]) < code_point(a[i]) {
        assert(b.take(i) == a.take(i));
        assert(text_before(b, a));
    } else {
        assert(a[i] == b[i]);
        assert(a.take(i + 1) == a.take(i).push(a[i]));
        assert(b.take(i + 1) == b.take(i).push(b[i]));
        lemma_unequal_texts_are_ordered(a, b, i + 1);
    }
}

/// `str`'s `cmp`, which vstd leaves without a specification: string slices
/// are ordered lexicographically by their bytes, which is the order of
/// their code points.
#[verifier::external_body]
fn str_order(a: &str, b: &str) -> (r: Ordering)
    ensures
        r == text_order(a@, b@),
{
    a.cmp(b)
}

/// `str`'s `==`, which vstd leaves without a specification: two string
/// slices are equal exactly when they hold the same characters.
#[verifier::external_body]
fn str_eq(a: &str, b: &str) -> (r: bool)
    ensures
        r == (a@ == b@),
{
    a == b
}

impl AlignmentFeedbackId {
    /// Create a new alignment feedback filter id.
    pub fn new(id: &str) -> (r: Self)
        ensures
            r@ == id@,
    {
        AlignmentFeedbackId(id.to_owned())
    }
}

impl PartialEq for AlignmentFeedbackId {
    fn eq(&self, other: &AlignmentFeedbackId) -> (r: bool) {
        self.0 == other.0
    }
}

impl PartialEqSpecImpl for AlignmentFeedbackId {
    open spec fn obeys_eq_spec() -> bool {
        true
    }

    open spec fn eq_spec(&self, other: &AlignmentFeedbackId) -> bool {
        self@ == other@
    }
}

impl PartialEq<&str> for AlignmentFeedbackId {
    fn eq(&self, other: &&str) -> (r: bool) {
        str_eq(self.0.as_str(), *other)
    }
}

impl PartialEqSpecImpl<&str> for AlignmentFeedbackId {
    open spec fn obeys_eq_spec() -> bool {
        true
    }

    open spec fn eq_spec(&self, other: &&str) -> bool {
        self@ == other@
    }
}

impl PartialEq<String> for AlignmentFeedbackId {
    fn eq(&self, other: &String) -> (r: bool) {
        self.0 == *other
    }
}

impl PartialEqSpecImpl<String> for AlignmentFeedbackId {
    open spec fn obeys_eq_spec() -> bool {
        true
    }

    open spec fn eq_spec(&self, other: &String) -> bool {
        self@ == other@
    }
}

impl PartialEq<&String> for AlignmentFeedbackId {
    fn eq(&self, other: &&String) -> (r: bool) {
        self.0 == **other
    }
}

impl PartialEqSpecImpl<&String> for AlignmentFeedbackId {
    open spec fn obeys_eq_spec() -> bool {
        true
    }

    open spec fn eq_spec(&self, other: &&String) -> bool {
        self@ == other@
    }
}

impl PartialEq<&AlignmentFeedbackId> for AlignmentFeedbackId {
    fn eq(&self, other: &&AlignmentFeedbackId) -> (r: bool) {
        other.0 == self.0
    }
}

impl PartialEqSpecImpl<&AlignmentFeedbackId> for AlignmentFeedbackId {
    open spec fn obeys_eq_spec() -> bool {
        true
    }

    open spec fn eq_spec(&self, other: &&AlignmentFeedbackId) -> bool {
        self@ == other@
    }
}

impl PartialEq<&str> for &AlignmentFeedbackId {
    fn eq(&self, other: &&str) -> (r: bool) {
        str_eq(self.0.as_str(), *other)
    }
}

impl PartialEqSpecImpl<&str> for &AlignmentFeedbackId {
    open spec fn obeys_eq_spec() -> bool {
        true
    }

    open spec fn eq_spec(&self, other: &&str) -> bool {
        self@ == other@
    }
}

impl PartialEq<String> for &AlignmentFeedbackId {
    fn eq(&self, other: &String) -> (r: bool) {
        self.0 == *other
    }
}

impl PartialEqSpecImpl<String> for &AlignmentFeedbackId {
    open spec fn obeys_eq_spec() -> bool {
        true
    }

    open spec fn eq_spec(&self, other: &String) -> bool {
        self@ == other@
    }
}

impl PartialOrd for AlignmentFeedbackId {
    fn partial_cmp(&self, other: &AlignmentFeedbackId) -> (r: Option<Ordering>) {
        Some(str_order(self.0.as_str(), other.0.as_str()))
    }
}

impl PartialOrdSpecImpl for AlignmentFeedbackId {
    open spec fn obeys_partial_cmp_spec() -> bool {
        true
    }

    open spec fn partial_cmp_spec(&self, other: &AlignmentFeedbackId) -> Option<Ordering> {
        Some(text_order(self@, other@))
    }
}

impl Clone for AlignmentFeedbackId {
    fn clone(&self) -> (r: Self)
        ensures
            r == *self,
    {
        AlignmentFeedbackId(self.0.clone())
    }
}

impl AsRef<str> for AlignmentFeedbackId {
    /// The text of the id.
    fn as_ref(&self) -> (r: &str)
        ensures
            r@ == self@,
    {
        self.0.as_str()
    }
}

impl Default for AlignmentFeedbackId {
    /// The id with no text.
    fn default() -> (r: Self)
        ensures
            r@ == Seq::<char>::empty(),
    {
        AlignmentFeedbackId(String::new())
    }
}

impl<T: core::fmt::Display> From<T> for AlignmentFeedbackId {
    /// The id whose text is what `value` displays as.
    fn from(value: T) -> (r: Self)
        ensures
            vstd::string::to_string_from_display_ensures::<T>(&value, r.0),
    {
        AlignmentFeedbackId(value.to_string())
    }
}

impl<T: core::fmt::Display> vstd::std_specs::convert::FromSpecImpl<T> for AlignmentFeedbackId {
    open spec fn obeys_from_spec() -> bool {
        false
    }

    open spec fn from_spec(value: T) -> Self {
        AlignmentFeedbackId(
            choose|text: String| vstd::string::to_string_from_display_ensures::<T>(&value, text),
        )
    }
}

impl std::str::FromStr for AlignmentFeedbackId {
    type Err = std::convert::Infallible;

    /// The id whose text is `s`; every text is an id.
    fn from_str(s: &str) -> (r: Result<Self, Self::Err>)
        ensures
            r matches Ok(id) && id@ == s@,
    {
        Ok(AlignmentFeedbackId::new(s))
    }
}

} // verus!
