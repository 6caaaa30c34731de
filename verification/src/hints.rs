//! Hint labels: how they are generated, assigned to elements and matched
//! against what the user has typed.

use crate::element::ClickableElement;
use crate::text::{chars_of, lowercase_of, same_text, starts_with, texts};
use crate::grid::{
    lemma_pair_index, lemma_pair_position, lemma_triple_index, lemma_triple_position,
};
use vstd::prelude::*;

verus! {

/// An element together with the label that selects it.
#[derive(Debug)]
pub struct HintedElement {
    pub hint: String,
    pub element: ClickableElement,
}

impl Clone for HintedElement {
    fn clone(&self) -> (copy: Self)
        ensures
            copy == *self,
    {
        HintedElement { hint: self.hint.clone(), element: self.element.clone() }
    }
}

impl HintedElement {
    /// The point at which the element is clicked: the centre of its box.
    pub fn click_position(&self) -> (p: (i32, i32))
        requires
            self.element.center_fits(),
        ensures
            p.0 == self.element.center_spec().0,
            p.1 == self.element.center_spec().1,
    {
        self.element.center()
    }
}

/// The characters that labels are usually made of; the home row comes first.
pub const DEFAULT_HINT_CHARS: &'static str = "asdfghjklqwertyuiopzxcvbnm";

/// How many labels of one, two and three characters an alphabet of `k`
/// characters gives.
pub open spec fn label_capacity(k: int) -> int {
    k + k * k + k * k * k
}

/// The label at position `i` of the enumeration over `alphabet`: first every
/// single character, then every pair, then every triple, each group in
/// row-major order.
pub open spec fn label_at(alphabet: Seq<char>, i: int) -> Seq<char> {
    let k = alphabet.len() as int;
    if i < k {
        seq![alphabet[i]]
    } else if i < k + k * k {
        let j = i - k;
        seq![alphabet[j / k], alphabet[j % k]]
    } else {
        let j = i - k - k * k;
        seq![alphabet[j / (k * k)], alphabet[(j / k) % k], alphabet[j % k]]
    }
}

/// How many labels are generated when `count` are asked for.
pub open spec fn label_count(count: int, alphabet: Seq<char>) -> int {
    if count <= label_capacity(alphabet.len() as int) {
        count
    } else {
        label_capacity(alphabet.len() as int)
    }
}

/// The labels generated for `count` elements over `alphabet`.
pub open spec fn labels(count: int, alphabet: Seq<char>) -> Seq<Seq<char>> {
    Seq::new(label_count(count, alphabet) as nat, |i: int| label_at(alphabet, i))
}

/// The length of a label tells which group it belongs to.
pub proof fn lemma_label_length(alphabet: Seq<char>, i: int)
    requires
        0 <= i < label_capacity(alphabet.len() as int),
    ensures
        i < alphabet.len() ==> label_at(alphabet, i).len() == 1,
        alphabet.len() <= i < alphabet.len() + alphabet.len() * alphabet.len() ==> label_at(
            alphabet,
            i,
        ).len() == 2,
        alphabet.len() + alphabet.len() * alphabet.len() <= i ==> label_at(alphabet, i).len() == 3,
        forall|p: int|
            0 <= p < label_at(alphabet, i).len() ==> alphabet.contains(
                #[trigger] label_at(alphabet, i)[p],
            ),
{
    let k = alphabet.len() as int;
    if i < k {
    } else if i < k + k * k {
        lemma_pair_position(k, i - k);
    } else {
        lemma_triple_position(k, i - k - k * k);
    }
}

/// Over an alphabet of distinct characters, different positions of the
/// enumeration hold different labels.
pub proof fn lemma_labels_differ(alphabet: Seq<char>, i: int, j: int)
    requires
        alphabet.no_duplicates(),
        0 <= i < j < label_capacity(alphabet.len() as int),
    ensures
        label_at(alphabet, i) != label_at(alphabet, j),
{
    let k = alphabet.len() as int;
    let a = label_at(alphabet, i);
    let b = label_at(alphabet, j);
    lemma_label_length(alphabet, i);
    lemma_label_length(alphabet, j);
    if a.len() != b.len() {
    } else if j < k {
        assert(a[0] != b[0]);
    } else if j < k + k * k {
        let x = i - k;
        let y = j - k;
        lemma_pair_position(k, x);
        lemma_pair_position(k, y);
        if x / k != y / k {
            assert(a[0] != b[0]);
        } else {
            assert(a[1] != b[1]);
        }
    } else {
        let x = i - k - k * k;
        let y = j - k - k * k;
        lemma_triple_position(k, x);
        lemma_triple_position(k, y);
        if x / (k * k) != y / (k * k) {
            assert(a[0] != b[0]);
        } else if (x / k) % k != (y / k) % k {
            assert(a[1] != b[1]);
        } else {
            assert(a[2] != b[2]);
        }
    }
}

/// The labels for `count` elements over the characters of `chars`: single
/// characters in alphabet order first, then pairs, then triples, until `count`
/// labels exist or the triples run out.
pub fn generate_hints(count: usize, chars: &str) -> (hints: Vec<String>)
    ensures
        texts(hints@) == labels(count as int, chars@),
        hints.len() == label_count(count as int, chars@),
        count == 0 || chars@.len() == 0 ==> hints.len() == 0,
        count <= chars@.len() ==> forall|i: int|
            0 <= i < count ==> (#[trigger] hints[i])@ == seq![chars@[i]],
        count > chars@.len() ==> forall|i: int|
            0 <= i < chars@.len() ==> (#[trigger] hints[i])@ == seq![chars@[i]],
        count > chars@.len() > 0 ==> hints[chars@.len() as int]@ == seq![chars@[0], chars@[0]],
        chars@.no_duplicates() ==> texts(hints@).no_duplicates(),
        forall|i: int| 0 <= i < hints.len() ==> 1 <= (#[trigger] hints[i])@.len() <= 3,
        forall|i: int, p: int|
            0 <= i < hints.len() && 0 <= p < hints[i]@.len() ==> chars@.contains(
                #[trigger] hints[i]@[p],
            ),
{
    let mut hints: Vec<String> = Vec::new();
    if count == 0 {
        return hints;
    }
    let hint_chars = chars_of(chars);
    let k: usize = hint_chars.len();
    if k == 0 {
        assert(label_capacity(chars@.len() as int) == 0) by (nonlinear_arith)
            requires
                chars@.len() == 0,
        ;
        return hints;
    }
    let ghost alphabet = chars@;
    let ghost n = k as int;

    let mut i: usize = 0;
    while i < k && hints.len() < count
        invariant
            hint_chars@ == alphabet,
            n == k == alphabet.len(),
            i <= k,
            hints.len() == i,
            hints.len() <= count,
            forall|p: int| 0 <= p < hints.len() ==> (#[trigger] hints[p])@ == label_at(alphabet, p),
        decreases k - i,
    {
        let mut label = String::new();
        label.push(hint_chars[i]);
        hints.push(label);
        i += 1;
    }

    if hints.len() < count {
        let mut row: usize = 0;
        while row < k && hints.len() < count
            invariant
                hint_chars@ == alphabet,
                n == k == alphabet.len(),
                n > 0,
                row <= k,
                hints.len() <= count,
                hints.len() <= n + row * n,
                hints.len() < count ==> hints.len() == n + row * n,
                forall|p: int|
                    0 <= p < hints.len() ==> (#[trigger] hints[p])@ == label_at(alphabet, p),
            decreases k - row,
        {
            let mut col: usize = 0;
            while col < k && hints.len() < count
                invariant
                    hint_chars@ == alphabet,
                    n == k == alphabet.len(),
                    n > 0,
                    row < k,
                    col <= k,
                    hints.len() <= count,
                    hints.len() == n + row * n + col,
                    forall|p: int|
                        0 <= p < hints.len() ==> (#[trigger] hints[p])@ == label_at(alphabet, p),
                decreases k - col,
            {
                proof {
                    lemma_pair_index(n, row as int, col as int);
                }
                let mut label = String::new();
                label.push(hint_chars[row]);
                label.push(hint_chars[col]);
                hints.push(label);
                col += 1;
            }
            assert(n + row * n + n == n + (row + 1) * n) by (nonlinear_arith);
            row += 1;
        }
        assert(row * n <= n * n) by (nonlinear_arith)
            requires
                0 <= row <= n,
        ;
    }

    if hints.len() < count {
        let mut plane: usize = 0;
        while plane < k && hints.len() < count
            invariant
                hint_chars@ == alphabet,
                n == k == alphabet.len(),
                n > 0,
                plane <= k,
                hints.len() <= count,
                hints.len() <= n + n * n + plane * (n * n),
                hints.len() < count ==> hints.len() == n + n * n + plane * (n * n),
                forall|p: int|
                    0 <= p < hints.len() ==> (#[trigger] hints[p])@ == label_at(alphabet, p),
            decreases k - plane,
        {
            let mut row: usize = 0;
            while row < k && hints.len() < count
                invariant
                    hint_chars@ == alphabet,
                    n == k == alphabet.len(),
                    n > 0,
                    plane < k,
                    row <= k,
                    hints.len() <= count,
                    hints.len() <= n + n * n + plane * (n * n) + row * n,
                    hints.len() < count ==> hints.len() == n + n * n + plane * (n * n) + row * n,
                    forall|p: int|
                        0 <= p < hints.len() ==> (#[trigger] hints[p])@ == label_at(alphabet, p),
                decreases k - row,
            {
                let mut col: usize = 0;
                while col < k && hints.len() < count
                    invariant
                        hint_chars@ == alphabet,
                        n == k == alphabet.len(),
                        n > 0,
                        plane < k,
                        row < k,
                        col <= k,
                        hints.len() <= count,
                        hints.len() == n + n * n + plane * (n * n) + row * n + col,
                        forall|p: int|
                            0 <= p < hints.len() ==> (#[trigger] hints[p])@ == label_at(
                                alphabet,
                                p,
                            ),
                    decreases k - col,
                {
                    proof {
                        lemma_triple_index(n, plane as int, row as int, col as int);
                    }
                    let mut label = String::new();
                    label.push(hint_chars[plane]);
                    label.push(hint_chars[row]);
                    label.push(hint_chars[col]);
                    hints.push(label);
                    col += 1;
                }
                assert(row * n + n == (row + 1) * n) by (nonlinear_arith);
                row += 1;
            }
            assert(row * n <= n * n) by (nonlinear_arith)
                requires
                    0 <= row <= n,
            ;
            assert(plane * (n * n) + n * n == (plane + 1) * (n * n)) by (nonlinear_arith);
            plane += 1;
        }
        assert(plane * (n * n) <= n * n * n) by (nonlinear_arith)
            requires
                0 <= plane <= n,
        ;
        assert(plane == n ==> plane * (n * n) == n * n * n) by (nonlinear_arith);
    }

    proof {
        if count > n {
            lemma_pair_index(n, 0, 0);
        }
        if alphabet.no_duplicates() {
            assert forall|p: int, q: int|
                0 <= p < q < hints.len() implies texts(hints@)[p] != texts(hints@)[q] by {
                lemma_labels_differ(alphabet, p, q);
            }
        }
        assert forall|i: int| 0 <= i < hints.len() implies {
            &&& 1 <= (#[trigger] hints[i])@.len() <= 3
            &&& forall|p: int|
                0 <= p < hints[i]@.len() ==> alphabet.contains(#[trigger] hints[i]@[p])
        } by {
            lemma_label_length(alphabet, i);
        }
    }
    hints
}

/// Pairs the elements with the generated labels, in order. Elements for which
/// no label is left are dropped; without characters to make labels of, that
/// is all of them.
pub fn assign_hints(elements: &[ClickableElement], chars: &str) -> (hinted: Vec<HintedElement>)
    ensures
        hinted.len() == label_count(elements.len() as int, chars@),
        chars@.len() == 0 ==> hinted.len() == 0,
        forall|i: int|
            0 <= i < hinted.len() ==> {
                &&& (#[trigger] hinted[i]).hint@ == label_at(chars@, i)
                &&& hinted[i].element == elements[i]
                &&& hinted[i].hint@.len() > 0
            },
        chars@.no_duplicates() ==> forall|i: int, j: int|
            0 <= i < j < hinted.len() ==> (#[trigger] hinted[i]).hint@ != (#[trigger] hinted[j]).hint@,
{
    let hints = generate_hints(elements.len(), chars);
    let mut hinted: Vec<HintedElement> = Vec::new();
    let mut i: usize = 0;
    while i < hints.len()
        invariant
            i <= hints.len() <= elements.len(),
            hinted.len() == i,
            texts(hints@) == labels(elements.len() as int, chars@),
            hints.len() == label_count(elements.len() as int, chars@),
            forall|p: int|
                0 <= p < i ==> {
                    &&& (#[trigger] hinted[p]).hint@ == label_at(chars@, p)
                    &&& hinted[p].element == elements[p]
                },
        decreases hints.len() - i,
    {
        let hint = hints[i].clone();
        let element = elements[i].clone();
        assert(labels(elements.len() as int, chars@)[i as int] == label_at(chars@, i as int));
        hinted.push(HintedElement { hint, element });
        i += 1;
    }
    proof {
        assert forall|i: int| 0 <= i < hinted.len() implies (#[trigger] hinted[i]).hint@.len()
            > 0 by {
            lemma_label_length(chars@, i);
        }
        if chars@.no_duplicates() {
            assert forall|i: int, j: int| 0 <= i < j < hinted.len() implies (
            #[trigger] hinted[i]).hint@ != (#[trigger] hinted[j]).hint@ by {
                lemma_labels_differ(chars@, i, j);
            }
        }
    }
    hinted
}

/// The elements of `elements` whose label starts with `prefix`, in order.
pub open spec fn with_prefix(elements: Seq<HintedElement>, prefix: Seq<char>) -> Seq<
    HintedElement,
> {
    elements.filter(|e: HintedElement| prefix.is_prefix_of(e.hint@))
}

/// The elements that a sequence of references points to.
pub open spec fn referents(found: Seq<&HintedElement>) -> Seq<HintedElement> {
    found.map_values(|r: &HintedElement| *r)
}

/// A filter that every element passes keeps the whole sequence.
proof fn lemma_filter_keeps_all<A>(s: Seq<A>, pred: spec_fn(A) -> bool)
    requires
        forall|i: int| 0 <= i < s.len() ==> pred(#[trigger] s[i]),
    ensures
        s.filter(pred) == s,
    decreases s.len(),
{
    reveal(Seq::filter);
    if s.len() > 0 {
        lemma_filter_keeps_all(s.drop_last(), pred);
    }
}

/// The elements whose label starts with `prefix`, compared character by
/// character as it stands.
pub fn filter_by_exact_prefix<'a>(elements: &'a [HintedElement], prefix: &str) -> (found: Vec<
    &'a HintedElement,
>)
    ensures
        referents(found@) == with_prefix(elements@, prefix@),
        prefix@.len() == 0 ==> referents(found@) == elements@,
{
    let mut found: Vec<&'a HintedElement> = Vec::new();
    let mut i: usize = 0;
    assert(with_prefix(elements@.take(0), prefix@) =~= Seq::<HintedElement>::empty()) by {
        reveal(Seq::filter);
    }
    while i < elements.len()
        invariant
            i <= elements.len(),
            referents(found@) == with_prefix(elements@.take(i as int), prefix@),
        decreases elements.len() - i,
    {
        let element = &elements[i];
        proof {
            elements@.take(i as int).lemma_filter_push(
                *element,
                |e: HintedElement| prefix@.is_prefix_of(e.hint@),
            );
            assert(elements@.take(i as int).push(*element) =~= elements@.take(i + 1));
        }
        if starts_with(element.hint.as_str(), prefix) {
            found.push(element);
        }
        i += 1;
    }
    proof {
        assert(elements@.take(elements.len() as int) =~= elements@);
        if prefix@.len() == 0 {
            lemma_filter_keeps_all(elements@, |e: HintedElement| prefix@.is_prefix_of(e.hint@));
        }
    }
    found
}

/// The elements whose label starts with the lowercase form of `prefix`, in
/// the order in which they stand. An empty prefix keeps every element.
pub fn filter_by_prefix<'a>(elements: &'a [HintedElement], prefix: &str) -> (found: Vec<
    &'a HintedElement,
>)
    ensures
        referents(found@) == with_prefix(elements@, lowercase_of(prefix@)),
        prefix@.len() == 0 ==> referents(found@) == elements@,
{
    let prefix_lower = prefix.to_lowercase();
    filter_by_exact_prefix(elements, prefix_lower.as_str())
}

/// Whether exactly one label starts with `wanted` and that label is `wanted`
/// itself.
pub open spec fn exactly_matched(elements: Seq<HintedElement>, wanted: Seq<char>) -> bool {
    &&& with_prefix(elements, wanted).len() == 1
    &&& with_prefix(elements, wanted)[0].hint@ == wanted
}

/// Whether exactly one label starts with `wanted`.
pub open spec fn uniquely_matched(elements: Seq<HintedElement>, wanted: Seq<char>) -> bool {
    with_prefix(elements, wanted).len() == 1
}

/// The only element whose label starts with `wanted`, if its label is
/// `wanted` itself; `wanted` is compared as it stands.
pub fn exact_match_for<'a>(elements: &'a [HintedElement], wanted: &str) -> (found: Option<
    &'a HintedElement,
>)
    ensures
        found is Some <==> exactly_matched(elements@, wanted@),
        found is Some ==> *found->0 == with_prefix(elements@, wanted@)[0],
{
    let matches = filter_by_exact_prefix(elements, wanted);
    if matches.len() == 1 && same_text(matches[0].hint.as_str(), wanted) {
        Some(matches[0])
    } else {
        None
    }
}

/// The only element whose label starts with `wanted`, whether or not the
/// label is complete; `wanted` is compared as it stands.
pub fn unique_match_for<'a>(elements: &'a [HintedElement], wanted: &str) -> (found: Option<
    &'a HintedElement,
>)
    ensures
        found is Some <==> uniquely_matched(elements@, wanted@),
        found is Some ==> *found->0 == with_prefix(elements@, wanted@)[0],
{
    let matches = filter_by_exact_prefix(elements, wanted);
    if matches.len() == 1 {
        Some(matches[0])
    } else {
        None
    }
}

/// The element that the lowercase form of `prefix` selects outright: the only
/// one whose label starts with it, and only if that label equals it.
pub fn find_exact_match<'a>(elements: &'a [HintedElement], prefix: &str) -> (found: Option<
    &'a HintedElement,
>)
    ensures
        found is Some <==> exactly_matched(elements@, lowercase_of(prefix@)),
        found is Some ==> *found->0 == with_prefix(elements@, lowercase_of(prefix@))[0],
{
    let wanted = prefix.to_lowercase();
    exact_match_for(elements, wanted.as_str())
}

/// The only element whose label starts with the lowercase form of `prefix`,
/// whether or not the label is complete.
pub fn find_unique_match<'a>(elements: &'a [HintedElement], prefix: &str) -> (found: Option<
    &'a HintedElement,
>)
    ensures
        found is Some <==> uniquely_matched(elements@, lowercase_of(prefix@)),
        found is Some ==> *found->0 == with_prefix(elements@, lowercase_of(prefix@))[0],
{
    let wanted = prefix.to_lowercase();
    unique_match_for(elements, wanted.as_str())
}

} // verus!
