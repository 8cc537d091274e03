//! The order of texts, and sorting by name.
use crate::text::{to_chars, Text};
use vstd::prelude::*;
use vstd::seq_lib::*;

verus! {

/// `a` comes no later than `b`: texts are ordered like words in a dictionary, by the code points
/// of their characters.
pub open spec fn text_le(a: Text, b: Text) -> bool
    decreases a.len(),
{
    if a.len() == 0 {
        true
    } else if b.len() == 0 {
        false
    } else if a[0] != b[0] {
        (a[0] as int) < (b[0] as int)
    } else {
        text_le(a.drop_first(), b.drop_first())
    }
}

/// `a` comes before `b`.
pub open spec fn text_lt(a: Text, b: Text) -> bool {
    a != b && text_le(a, b)
}

/// Every text comes no later than itself.
pub proof fn law_text_order_reflexive(a: Text)
    ensures
        text_le(a, a),
    decreases a.len(),
{
    if a.len() > 0 {
        law_text_order_reflexive(a.drop_first());
    }
}

/// Two texts that come no later than each other are equal.
pub proof fn law_text_order_antisymmetric(a: Text, b: Text)
    requires
        text_le(a, b),
        text_le(b, a),
    ensures
        a == b,
    decreases a.len(),
{
    if a.len() > 0 {
        let (x, y) = (a.drop_first(), b.drop_first());
        law_text_order_antisymmetric(x, y);
        assert forall|i: int| 0 <= i < a.len() implies a[i] == b[i] by {
            if i > 0 {
                assert(a[i] == x[i - 1]);
                assert(b[i] == y[i - 1]);
            }
        }
    }
    assert(a =~= b);
}

/// The order of texts is transitive.
pub proof fn law_text_order_transitive(a: Text, b: Text, c: Text)
    requires
        text_le(a, b),
        text_le(b, c),
    ensures
        text_le(a, c),
    decreases a.len(),
{
    if a.len() > 0 && a[0] == b[0] && b[0] == c[0] {
        law_text_order_transitive(a.drop_first(), b.drop_first(), c.drop_first());
    }
}

/// Of two texts one comes no later than the other.
pub proof fn law_text_order_total(a: Text, b: Text)
    ensures
        text_le(a, b) || text_le(b, a),
    decreases a.len(),
{
    if a.len() > 0 && b.len() > 0 && a[0] == b[0] {
        law_text_order_total(a.drop_first(), b.drop_first());
    }
}

/// The code point of a character.
fn code_point(c: char) -> (r: u32)
    ensures
        r as int == c as int,
{
    c as u32
}

/// Whether `a` comes no later than `b`.
pub fn no_later(a: &str, b: &str) -> (r: bool)
    ensures
        r == text_le(a@, b@),
{
    let left = to_chars(a);
    let right = to_chars(b);
    let mut i: usize = 0;
    assert(a@.subrange(0, a@.len() as int) == a@);
    assert(b@.subrange(0, b@.len() as int) == b@);
    while i < left.len() && i < right.len() && left[i] == right[i]
        invariant
            left@ == a@,
            right@ == b@,
            i <= left@.len(),
            i <= right@.len(),
            text_le(a@, b@) == text_le(
                a@.subrange(i as int, a@.len() as int),
                b@.subrange(i as int, b@.len() as int),
            ),
        decreases left@.len() - i,
    {
        assert(a@.subrange(i as int, a@.len() as int).drop_first() == a@.subrange(
            i + 1,
            a@.len() as int,
        ));
        assert(b@.subrange(i as int, b@.len() as int).drop_first() == b@.subrange(
            i + 1,
            b@.len() as int,
        ));
        i = i + 1;
    }
    if i >= left.len() {
        true
    } else if i >= right.len() {
        false
    } else {
        code_point(left[i]) < code_point(right[i])
    }
}

/// Something that is listed by its name.
pub trait Named: Sized {
    /// The name, as a text.
    spec fn name_text(&self) -> Text;

    /// The name.
    fn listed_name(&self) -> (r: &str)
        ensures
            r@ == self.name_text(),
    ;
}

impl Named for String {
    open spec fn name_text(&self) -> Text {
        self@
    }

    fn listed_name(&self) -> (r: &str) {
        self.as_str()
    }
}

/// `x` put into the ordered `s` behind everything whose key comes no later than the key of `x`.
pub open spec fn placed<A>(s: Seq<A>, x: A, key: spec_fn(A) -> Text) -> Seq<A>
    decreases s.len(),
{
    if s.len() == 0 || text_le(key(s.last()), key(x)) {
        s.push(x)
    } else {
        placed(s.drop_last(), x, key).push(s.last())
    }
}

/// `s` ordered by key; what has equal keys keeps its order.
pub open spec fn arranged<A>(s: Seq<A>, key: spec_fn(A) -> Text) -> Seq<A>
    decreases s.len(),
{
    if s.len() == 0 {
        s
    } else {
        placed(arranged(s.drop_last(), key), s.last(), key)
    }
}

/// The key of a thing that is listed by its name.
pub open spec fn by_name<T: Named>() -> spec_fn(T) -> Text {
    |x: T| x.name_text()
}

/// Keys that never come earlier than the ones before them.
pub open spec fn ascending<A>(s: Seq<A>, key: spec_fn(A) -> Text) -> bool {
    forall|i: int, j: int| 0 <= i <= j < s.len() ==> text_le(key(#[trigger] s[i]), key(#[trigger] s[j]))
}

proof fn lemma_placed_len<A>(s: Seq<A>, x: A, key: spec_fn(A) -> Text)
    ensures
        placed(s, x, key).len() == s.len() + 1,
    decreases s.len(),
{
    if s.len() > 0 && !text_le(key(s.last()), key(x)) {
        lemma_placed_len(s.drop_last(), x, key);
    }
}

proof fn lemma_placed_shape<A>(s: Seq<A>, x: A, key: spec_fn(A) -> Text) -> (at: int)
    requires
        ascending(s, key),
    ensures
        0 <= at <= s.len(),
        placed(s, x, key) == s.take(at).push(x) + s.skip(at),
        forall|i: int| 0 <= i < at ==> text_le(key(#[trigger] s[i]), key(x)),
        forall|i: int| at <= i < s.len() ==> !text_le(key(#[trigger] s[i]), key(x)),
    decreases s.len(),
{
    if s.len() == 0 || text_le(key(s.last()), key(x)) {
        let at = s.len() as int;
        assert(s.take(at) == s);
        assert(s.take(at).push(x) + s.skip(at) == s.push(x));
        assert forall|i: int| 0 <= i < at implies text_le(key(#[trigger] s[i]), key(x)) by {
            assert(text_le(key(s[i]), key(s[s.len() - 1])));
            law_text_order_transitive(key(s[i]), key(s.last()), key(x));
        }
        at
    } else {
        let front = s.drop_last();
        assert(ascending(front, key)) by {
            assert forall|i: int, j: int| 0 <= i <= j < front.len() implies text_le(
                key(#[trigger] front[i]),
                key(#[trigger] front[j]),
            ) by {
                assert(front[i] == s[i] && front[j] == s[j]);
            }
        }
        let at = lemma_placed_shape(front, x, key);
        assert(s.take(at) == front.take(at));
        assert(s.skip(at) == front.skip(at).push(s.last()));
        assert((front.take(at).push(x) + front.skip(at)).push(s.last()) == s.take(at).push(x)
            + s.skip(at));
        assert forall|i: int| 0 <= i < at implies text_le(key(#[trigger] s[i]), key(x)) by {
            assert(front[i] == s[i]);
        }
        assert forall|i: int| at <= i < s.len() implies !text_le(key(#[trigger] s[i]), key(x)) by {
            if i < front.len() {
                assert(front[i] == s[i]);
            }
        }
        at
    }
}

proof fn lemma_placed_ascending<A>(s: Seq<A>, x: A, key: spec_fn(A) -> Text)
    requires
        ascending(s, key),
    ensures
        ascending(placed(s, x, key), key),
{
    let at = lemma_placed_shape(s, x, key);
    let t = placed(s, x, key);
    law_text_order_reflexive(key(x));
    assert forall|i: int, j: int| 0 <= i <= j < t.len() implies text_le(
        key(#[trigger] t[i]),
        key(#[trigger] t[j]),
    ) by {
        if i < at {
            assert(t[i] == s[i]);
        } else if i > at {
            assert(t[i] == s[i - 1]);
        }
        if j < at {
            assert(t[j] == s[j]);
        } else if j > at {
            assert(t[j] == s[j - 1]);
        }
        if i == at && j > at {
            law_text_order_total(key(x), key(s[j - 1]));
        }
    }
}

/// An arranged sequence is ascending.
pub proof fn law_arranged_is_ascending<A>(s: Seq<A>, key: spec_fn(A) -> Text)
    ensures
        ascending(arranged(s, key), key),
    decreases s.len(),
{
    if s.len() > 0 {
        law_arranged_is_ascending(s.drop_last(), key);
        lemma_placed_ascending(arranged(s.drop_last(), key), s.last(), key);
    }
}

/// Arranging neither adds nor loses anything.
pub proof fn law_arranged_is_permutation<A>(s: Seq<A>, key: spec_fn(A) -> Text)
    ensures
        arranged(s, key).to_multiset() == s.to_multiset(),
        arranged(s, key).len() == s.len(),
    decreases s.len(),
{
    if s.len() > 0 {
        let front = s.drop_last();
        law_arranged_is_permutation(front, key);
        law_arranged_is_ascending(front, key);
        let t = arranged(front, key);
        let at = lemma_placed_shape(t, s.last(), key);
        assert(placed(t, s.last(), key) == t.insert(at, s.last()));
        to_multiset_insert(t, at, s.last());
        to_multiset_build(front, s.last());
        assert(s == front.push(s.last()));
    }
}

/// Things with the same key keep their order.
pub proof fn law_arranged_is_stable<A>(s: Seq<A>, key: spec_fn(A) -> Text, name: Text)
    ensures
        arranged(s, key).filter(|x: A| key(x) == name) == s.filter(|x: A| key(x) == name),
    decreases s.len(),
{
    let same = |x: A| key(x) == name;
    if s.len() > 0 {
        let front = s.drop_last();
        let x = s.last();
        law_arranged_is_stable(front, key, name);
        law_arranged_is_ascending(front, key);
        let t = arranged(front, key);
        let at = lemma_placed_shape(t, x, key);
        assert(t == t.take(at) + t.skip(at));
        Seq::filter_distributes_over_add(t.take(at), t.skip(at), same);
        Seq::filter_distributes_over_add(t.take(at).push(x), t.skip(at), same);
        t.take(at).lemma_filter_push(x, same);
        front.lemma_filter_push(x, same);
        assert(s == front.push(x));
        if same(x) {
            assert forall|i: int| 0 <= i < t.skip(at).len() implies !same(
                #[trigger] t.skip(at)[i],
            ) by {
                law_text_order_reflexive(key(x));
                assert(t.skip(at)[i] == t[i + at]);
            }
            t.skip(at).lemma_all_neg_filter_empty(same);
            assert(t.skip(at).filter(same) == Seq::<A>::empty());
            assert(t.filter(same) == t.take(at).filter(same));
        }
    }
}

/// Texts in order, none twice.
pub open spec fn strictly_ascending(s: Seq<Text>) -> bool {
    forall|i: int, j: int| 0 <= i < j < s.len() ==> text_lt(#[trigger] s[i], #[trigger] s[j])
}

/// `s` lists `names` in order, each once.
pub open spec fn lists(s: Seq<Text>, names: Set<Text>) -> bool {
    &&& strictly_ascending(s)
    &&& forall|name: Text| s.contains(name) <==> names.contains(name)
}

/// The texts of a finite set, in order.
pub open spec fn ordered(names: Set<Text>) -> Seq<Text> {
    choose|s: Seq<Text>| lists(s, names)
}

/// A set can be listed in order in one way only.
pub proof fn law_listing_is_unique(a: Seq<Text>, b: Seq<Text>, names: Set<Text>)
    requires
        lists(a, names),
        lists(b, names),
    ensures
        a == b,
    decreases a.len(),
{
    if a.len() == 0 {
        if b.len() > 0 {
            assert(b.contains(b[0]));
            assert(a.contains(b[0]));
        }
    } else {
        assert(a.contains(a[0]));
        assert(b.contains(a[0]));
        let j = b.index_of(a[0]);
        assert(b.contains(b[0]));
        assert(a.contains(b[0]));
        let i = a.index_of(b[0]);
        if a[0] != b[0] {
            assert(text_lt(a[0], a[i]));
            assert(text_lt(b[0], b[j]));
            law_text_order_antisymmetric(a[0], b[0]);
        }
        let first = a[0];
        let rest = names.remove(first);
        lemma_rest_is_listed(a, names);
        lemma_rest_is_listed(b, names);
        law_listing_is_unique(a.drop_first(), b.drop_first(), rest);
        assert(a == seq![first] + a.drop_first());
        assert(b == seq![first] + b.drop_first());
    }
}

proof fn lemma_rest_is_listed(s: Seq<Text>, names: Set<Text>)
    requires
        lists(s, names),
        s.len() > 0,
    ensures
        lists(s.drop_first(), names.remove(s[0])),
{
    let rest = s.drop_first();
    assert forall|name: Text| rest.contains(name) <==> names.remove(s[0]).contains(name) by {
        if rest.contains(name) {
            let i = rest.index_of(name);
            assert(s[i + 1] == name);
            assert(s.contains(name));
            assert(text_lt(s[0], s[i + 1]));
        }
        if names.remove(s[0]).contains(name) {
            assert(s.contains(name));
            let i = s.index_of(name);
            assert(rest[i - 1] == name);
        }
    }
    assert forall|i: int, j: int| 0 <= i < j < rest.len() implies text_lt(
        #[trigger] rest[i],
        #[trigger] rest[j],
    ) by {
        assert(text_lt(s[i + 1], s[j + 1]));
    }
}

/// A listing of a set in order is `ordered` of it.
pub proof fn lemma_ordered(s: Seq<Text>, names: Set<Text>)
    requires
        lists(s, names),
    ensures
        ordered(names) == s,
        lists(ordered(names), names),
{
    law_listing_is_unique(ordered(names), s, names);
}

/// Every finite set of texts can be listed in order.
pub proof fn lemma_finite_set_is_listed(names: Set<Text>)
    requires
        names.finite(),
    ensures
        lists(ordered(names), names),
    decreases names.len(),
{
    if names.len() == 0 {
        let nothing = Seq::<Text>::empty();
        assert(names =~= Set::empty());
        assert(lists(nothing, names));
        lemma_ordered(nothing, names);
    } else {
        let x = names.choose();
        let rest = names.remove(x);
        lemma_finite_set_is_listed(rest);
        let listed = ordered(rest);
        let key = |name: Text| name;
        assert(ascending(listed, key)) by {
            assert forall|i: int, j: int| 0 <= i <= j < listed.len() implies text_le(
                key(#[trigger] listed[i]),
                key(#[trigger] listed[j]),
            ) by {
                if i == j {
                    law_text_order_reflexive(listed[i]);
                } else {
                    assert(text_lt(listed[i], listed[j]));
                }
            }
        }
        let at = lemma_placed_shape(listed, x, key);
        let more = listed.insert(at, x);
        lemma_placed_ascending(listed, x, key);
        assert(placed(listed, x, key) == more);
        assert forall|name: Text| more.contains(name) <==> names.contains(name) by {
            if more.contains(name) {
                let i = more.index_of(name);
                if i < at {
                    assert(listed[i] == name);
                    assert(listed.contains(name));
                } else if i > at {
                    assert(listed[i - 1] == name);
                    assert(listed.contains(name));
                }
            }
            if names.contains(name) {
                if name == x {
                    assert(more[at] == x);
                } else {
                    assert(rest.contains(name));
                    assert(listed.contains(name));
                    let i = listed.index_of(name);
                    if i < at {
                        assert(more[i] == name);
                    } else {
                        assert(more[i + 1] == name);
                    }
                }
            }
        }
        assert forall|i: int, j: int| 0 <= i < j < more.len() implies text_lt(
            #[trigger] more[i],
            #[trigger] more[j],
        ) by {
            assert(text_le(key(more[i]), key(more[j])));
            if i < at && j < at {
                assert(text_lt(listed[i], listed[j]));
            } else if i > at {
                assert(text_lt(listed[i - 1], listed[j - 1]));
            } else if i == at {
                assert(listed.contains(listed[j - 1]));
            } else if j == at {
                assert(listed.contains(listed[i]));
            } else {
                assert(text_lt(listed[i], listed[j - 1]));
            }
        }
        lemma_ordered(more, names);
    }
}

/// What is picked from a listing lists what is picked from the set.
pub proof fn lemma_filtered_listing(s: Seq<Text>, names: Set<Text>, picks: spec_fn(Text) -> bool)
    requires
        lists(s, names),
    ensures
        lists(s.filter(picks), names.filter(picks)),
    decreases s.len(),
{
    lemma_filter_ascends(s, picks);
    let picked = s.filter(picks);
    assert forall|name: Text| picked.contains(name) <==> names.filter(picks).contains(name) by {
        if picked.contains(name) {
            let i = picked.index_of(name);
            s.lemma_filter_pred(picks, i);
            s.lemma_filter_contains_rev(picks, name);
        }
        if names.contains(name) && picks(name) {
            assert(s.contains(name));
            s.lemma_filter_contains(picks, s.index_of(name));
        }
        assert(names.filter(picks).contains(name) <==> names.contains(name) && picks(name));
    }
}

proof fn lemma_filter_ascends(s: Seq<Text>, picks: spec_fn(Text) -> bool)
    requires
        strictly_ascending(s),
    ensures
        strictly_ascending(s.filter(picks)),
    decreases s.len(),
{
    reveal(Seq::filter);
    if s.len() > 0 {
        let front = s.drop_last();
        assert(strictly_ascending(front));
        lemma_filter_ascends(front, picks);
        let picked = front.filter(picks);
        assert forall|i: int| 0 <= i < picked.len() implies text_lt(
            #[trigger] picked[i],
            s.last(),
        ) by {
            assert(picked.contains(picked[i]));
            front.lemma_filter_contains_rev(picks, picked[i]);
            let j = front.index_of(picked[i]);
            assert(text_lt(s[j], s[s.len() - 1]));
        }
    }
}

/// What is in order already stays as it is.
pub proof fn law_arranged_keeps_order<A>(s: Seq<A>, key: spec_fn(A) -> Text)
    requires
        ascending(s, key),
    ensures
        arranged(s, key) == s,
    decreases s.len(),
{
    if s.len() > 0 {
        let front = s.drop_last();
        assert(ascending(front, key)) by {
            assert forall|i: int, j: int| 0 <= i <= j < front.len() implies text_le(
                key(#[trigger] front[i]),
                key(#[trigger] front[j]),
            ) by {
                assert(text_le(key(s[i]), key(s[j])));
            }
        }
        law_arranged_keeps_order(front, key);
        if front.len() > 0 {
            assert(text_le(key(s[s.len() - 2]), key(s[s.len() - 1])));
        }
        assert(s == front.push(s.last()));
    }
}

/// Arranging things and then showing each in another form is showing them first and arranging
/// them then, where the form keeps the key.
pub proof fn lemma_arranged_of_forms<A, B>(
    s: Seq<A>,
    form: spec_fn(A) -> B,
    key: spec_fn(A) -> Text,
    form_key: spec_fn(B) -> Text,
)
    requires
        forall|x: A| form_key(#[trigger] form(x)) == key(x),
    ensures
        arranged(s, key).map_values(form) == arranged(s.map_values(form), form_key),
    decreases s.len(),
{
    if s.len() > 0 {
        let front = s.drop_last();
        lemma_arranged_of_forms(front, form, key, form_key);
        lemma_placed_of_forms(arranged(front, key), s.last(), form, key, form_key);
        assert(s.map_values(form).drop_last() == front.map_values(form));
        assert(s.map_values(form).last() == form(s.last()));
    }
    assert(arranged(s, key).map_values(form) =~= arranged(s.map_values(form), form_key));
}

proof fn lemma_placed_of_forms<A, B>(
    s: Seq<A>,
    x: A,
    form: spec_fn(A) -> B,
    key: spec_fn(A) -> Text,
    form_key: spec_fn(B) -> Text,
)
    requires
        forall|x: A| form_key(#[trigger] form(x)) == key(x),
    ensures
        placed(s, x, key).map_values(form) == placed(s.map_values(form), form(x), form_key),
    decreases s.len(),
{
    let forms = s.map_values(form);
    if s.len() > 0 {
        assert(forms.last() == form(s.last()));
        assert(forms.drop_last() == s.drop_last().map_values(form));
        lemma_placed_of_forms(s.drop_last(), x, form, key, form_key);
    }
    assert(placed(s, x, key).map_values(form) =~= placed(forms, form(x), form_key));
}

/// A sequence with one more element is arranged by putting that element into its place in what was
/// arranged before.
proof fn lemma_arranged_push<A>(s: Seq<A>, x: A, key: spec_fn(A) -> Text)
    ensures
        arranged(s.push(x), key) == placed(arranged(s, key), x, key),
{
    assert(s.push(x).drop_last() == s);
}

/// Sorts by name; things with equal names keep their order.
pub fn sort_by_name<T: Named>(items: Vec<T>) -> (r: Vec<T>)
    ensures
        r@ == arranged(items@, by_name::<T>()),
{
    let mut sorted: Vec<T> = Vec::new();
    let ghost all = items@;
    for item in it: items
        invariant
            it.seq() == all,
            sorted@ == arranged(all.take(it.index() as int), by_name::<T>()),
    {
        let ghost before = sorted@;
        let ghost key = by_name::<T>();
        let mut at: usize = sorted.len();
        assert(before.take(at as int) == before);
        assert(placed(before, item, key) + before.skip(at as int) == placed(before, item, key));
        while at > 0 && !no_later(sorted[at - 1].listed_name(), item.listed_name())
            invariant
                key == by_name::<T>(),
                at <= sorted@.len(),
                sorted@ == before,
                placed(before, item, key) == placed(before.take(at as int), item, key) + before.skip(
                    at as int,
                ),
            decreases at,
        {
            proof {
                let part = before.take(at as int);
                assert(part.drop_last() == before.take(at - 1));
                assert(before.skip(at - 1) == seq![before[at - 1]] + before.skip(at as int));
                assert(placed(part, item, key) == placed(before.take(at - 1), item, key).push(
                    before[at - 1],
                ));
                assert(placed(before.take(at - 1), item, key).push(before[at - 1]) + before.skip(
                    at as int,
                ) == placed(before.take(at - 1), item, key) + before.skip(at - 1));
            }
            at = at - 1;
        }
        proof {
            let part = before.take(at as int);
            if at > 0 {
                assert(part.last() == before[at - 1]);
            }
            assert(placed(part, item, key) == part.push(item));
            assert(before.insert(at as int, item) == part.push(item) + before.skip(at as int));
            assert(all.take(it.index() + 1) == all.take(it.index() as int).push(item));
            lemma_arranged_push(all.take(it.index() as int), item, key);
        }
        sorted.insert(at, item);
    }
    assert(all.take(all.len() as int) == all);
    sorted
}

/// Texts are ordered by the first character in which they differ; a text comes before any that goes
/// on behind it.
pub proof fn law_first_difference_decides(common: Text, a: char, x: Text, b: char, y: Text)
    requires
        (a as u32) < (b as u32),
    ensures
        text_lt(common + seq![a] + x, common + seq![b] + y),
        !text_le(common + seq![b] + y, common + seq![a] + x),
        text_lt(common, common + seq![a] + x),
    decreases common.len(),
{
    let (p, q) = (common + seq![a] + x, common + seq![b] + y);
    assert(p[common.len() as int] == a);
    assert(q[common.len() as int] == b);
    assert(p.len() > common.len());
    if common.len() > 0 {
        let rest = common.drop_first();
        assert(p.drop_first() =~= rest + seq![a] + x);
        assert(q.drop_first() =~= rest + seq![b] + y);
        law_first_difference_decides(rest, a, x, b, y);
    }
}

} // verus!
