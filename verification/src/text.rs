use vstd::prelude::*;
use vstd::utf8::{decode_utf8, valid_utf8};

verus! {

/// Whether `a` comes before `b`, or is `b`, in the dictionary order of their code points.
pub open spec fn text_le(a: Seq<char>, b: Seq<char>) -> bool
    decreases a.len(),
{
    if a.len() == 0 {
        true
    } else if b.len() == 0 {
        false
    } else if a[0] != b[0] {
        a[0] < b[0]
    } else {
        text_le(a.drop_first(), b.drop_first())
    }
}

/// The code points of `text`, in order.
pub fn code_points(text: &str) -> (points: Vec<char>)
    ensures
        points@ == text@,
{
    let mut points: Vec<char> = Vec::new();
    for c in it: text.chars()
        invariant
            points@ == it.seq().take(it.index() as int),
            it.seq() == text@,
    {
        points.push(c);
    }
    points
}

/// Whether `text` begins with `prefix`.
pub fn starts_with(text: &str, prefix: &str) -> (yes: bool)
    ensures
        yes == prefix@.is_prefix_of(text@),
{
    let whole = code_points(text);
    let start = code_points(prefix);
    if start.len() > whole.len() {
        return false;
    }
    let mut i: usize = 0;
    while i < start.len()
        invariant
            i <= start.len() <= whole.len(),
            forall|j: int| 0 <= j < i ==> start@[j] == whole@[j],
            start@ == prefix@,
            whole@ == text@,
        decreases start.len() - i,
    {
        if start[i] != whole[i] {
            assert(text@.subrange(0, prefix@.len() as int)[i as int] != prefix@[i as int]);
            return false;
        }
        i += 1;
    }
    assert(prefix@ =~= text@.subrange(0, prefix@.len() as int));
    true
}

/// Whether `a` comes before `b`, or is `b`, in dictionary order.
pub fn in_order(a: &str, b: &str) -> (yes: bool)
    ensures
        yes == text_le(a@, b@),
{
    let left = code_points(a);
    let right = code_points(b);
    let mut i: usize = 0;
    assert(left@.skip(0) =~= left@);
    assert(right@.skip(0) =~= right@);
    while i < left.len() && i < right.len()
        invariant
            i <= left.len(),
            i <= right.len(),
            left@ == a@,
            right@ == b@,
            text_le(a@, b@) == text_le(left@.skip(i as int), right@.skip(i as int)),
        decreases left.len() - i,
    {
        if left[i] != right[i] {
            return left[i] < right[i];
        }
        assert(left@.skip(i as int).drop_first() =~= left@.skip(i + 1));
        assert(right@.skip(i as int).drop_first() =~= right@.skip(i + 1));
        i += 1;
    }
    i >= left.len()
}

/// `first` followed by `second`.
pub fn join(first: &str, second: &str) -> (whole: String)
    ensures
        whole@ == first@ + second@,
{
    let mut whole = first.to_owned();
    whole.append(second);
    whole
}

/// The address on the network of `path`, which begins with a domain.
pub open spec fn spec_ap_url(path: Seq<char>) -> Seq<char> {
    "https://"@ + path
}

/// The address on the network of `path`, which begins with a domain.
pub fn ap_url(path: &str) -> (url: String)
    ensures
        url@ == spec_ap_url(path@),
{
    join("https://", path)
}

/// The text that `bytes` spell in UTF-8, where they do.
///
/// Stands for `String::from_utf8`: it succeeds exactly on valid UTF-8, and the text is what the
/// bytes decode to.
#[verifier::external_body]
pub(crate) fn from_utf8(bytes: Vec<u8>) -> (text: Option<String>)
    ensures
        text is Some <==> valid_utf8(bytes@),
        text matches Some(t) ==> t@ == decode_utf8(bytes@),
{
    String::from_utf8(bytes).ok()
}

/// Dictionary order is an order: any two texts compare, and one way only unless they are equal.
pub proof fn text_le_total(a: Seq<char>, b: Seq<char>)
    ensures
        text_le(a, a),
        text_le(a, b) || text_le(b, a),
        text_le(a, b) && text_le(b, a) ==> a == b,
    decreases a.len(),
{
    if a.len() > 0 {
        if b.len() > 0 {
            text_le_total(a.drop_first(), b.drop_first());
            if text_le(a, b) && text_le(b, a) {
                assert(a =~= seq![a[0]] + a.drop_first());
                assert(b =~= seq![b[0]] + b.drop_first());
            }
        } else {
            text_le_total(a.drop_first(), b);
        }
    }
}

/// What comes before a text also comes before everything that this text comes before.
pub proof fn text_le_transitive(a: Seq<char>, b: Seq<char>, c: Seq<char>)
    requires
        text_le(a, b),
        text_le(b, c),
    ensures
        text_le(a, c),
    decreases a.len(),
{
    if a.len() > 0 && a[0] == b[0] && b[0] == c[0] {
        text_le_transitive(a.drop_first(), b.drop_first(), c.drop_first());
    }
}

/// Dictionary order goes by the first code point in which two texts differ; a text comes before
/// what it is the start of.
pub proof fn text_le_by_first_difference(a: Seq<char>, b: Seq<char>)
    ensures
        text_le(a, b) <==> exists|k: int|
            {
                &&& 0 <= k <= a.len()
                &&& k <= b.len()
                &&& #[trigger] a.take(k) == b.take(k)
                &&& k == a.len() || (k < b.len() && a[k] < b[k])
            },
    decreases a.len(),
{
    if a.len() == 0 {
        assert(a.take(0) =~= b.take(0));
    } else if b.len() == 0 {
    } else if a[0] != b[0] {
        assert(a.take(0) =~= b.take(0));
        assert forall|k: int| 0 < k <= a.len() && k <= b.len() implies #[trigger] a.take(k)
            != b.take(k) by {
            assert(a.take(k)[0] != b.take(k)[0]);
        }
    } else {
        let c = a.drop_first();
        let d = b.drop_first();
        text_le_by_first_difference(c, d);
        if text_le(a, b) {
            let k = choose|k: int|
                {
                    &&& 0 <= k <= c.len()
                    &&& k <= d.len()
                    &&& #[trigger] c.take(k) == d.take(k)
                    &&& k == c.len() || (k < d.len() && c[k] < d[k])
                };
            assert forall|i: int| 0 <= i < k + 1 implies a[i] == b[i] by {
                if i > 0 {
                    assert(c.take(k)[i - 1] == d.take(k)[i - 1]);
                }
            }
            assert(a.take(k + 1) =~= b.take(k + 1));
        }
        if exists|k: int|
            {
                &&& 0 <= k <= a.len()
                &&& k <= b.len()
                &&& #[trigger] a.take(k) == b.take(k)
                &&& k == a.len() || (k < b.len() && a[k] < b[k])
            } {
            let k = choose|k: int|
                {
                    &&& 0 <= k <= a.len()
                    &&& k <= b.len()
                    &&& #[trigger] a.take(k) == b.take(k)
                    &&& k == a.len() || (k < b.len() && a[k] < b[k])
                };
            assert(k > 0);
            assert forall|i: int| 0 <= i < k - 1 implies c[i] == d[i] by {
                assert(a.take(k)[i + 1] == b.take(k)[i + 1]);
            }
            assert(c.take(k - 1) =~= d.take(k - 1));
        }
    }
}

} // verus!
