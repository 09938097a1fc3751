use vstd::prelude::*;
use vstd::string::*;

verus! {

broadcast use vstd::seq_lib::group_to_multiset_ensures;

/// `a` and `b` agree before position `k`, and at `k` either `a` has ended
/// while `b` goes on, or `a` has the smaller character.
pub open spec fn first_difference_at(a: Seq<char>, b: Seq<char>, k: int) -> bool {
    &&& 0 <= k <= a.len()
    &&& k <= b.len()
    &&& forall|j: int| 0 <= j < k ==> a[j] == b[j]
    &&& ((k == a.len() && k < b.len()) || (k < a.len() && k < b.len() && (a[k] as u32) < (
    b[k] as u32)))
}

/// Lexicographic order on texts, character by character.  On strings this
/// is the order of `String`'s `Ord`: comparing UTF-8 encodings byte by byte
/// orders texts as comparing their characters' code points does.
pub open spec fn text_lt(a: Seq<char>, b: Seq<char>) -> bool {
    exists|k: int| #[trigger] first_difference_at(a, b, k)
}

/// The order is transitive.
pub proof fn lemma_text_lt_transitive(a: Seq<char>, b: Seq<char>, c: Seq<char>)
    requires
        text_lt(a, b),
        text_lt(b, c),
    ensures
        text_lt(a, c),
{
    let k1 = choose|k: int| #[trigger] first_difference_at(a, b, k);
    let k2 = choose|k: int| #[trigger] first_difference_at(b, c, k);
    if k1 < k2 {
        assert(first_difference_at(a, c, k1));
    } else if k2 < k1 {
        assert(first_difference_at(a, c, k2));
    } else {
        assert(first_difference_at(a, c, k1));
    }
}

/// No text is below itself.
pub proof fn lemma_text_lt_irreflexive(a: Seq<char>)
    ensures
        !text_lt(a, a),
{
}

/// `v` is in non-decreasing order.
pub open spec fn sorted_texts(v: Seq<Seq<char>>) -> bool {
    forall|i: int, j: int| 0 <= i < j < v.len() ==> !text_lt(#[trigger] v[j], #[trigger] v[i])
}

/// The texts of a list of strings.
pub open spec fn texts(v: Seq<String>) -> Seq<Seq<char>> {
    v.map_values(|s: String| s@)
}

/// Compares two texts lexicographically.
pub fn text_less(a: &str, b: &str) -> (r: bool)
    ensures
        r == text_lt(a@, b@),
{
    let la = a.unicode_len();
    let lb = b.unicode_len();
    let mut i: usize = 0;
    while i < la && i < lb
        invariant
            la == a@.len(),
            lb == b@.len(),
            0 <= i <= la,
            i <= lb,
            forall|j: int| 0 <= j < i ==> a@[j] == b@[j],
        decreases la - i,
    {
        let ca = a.get_char(i);
        let cb = b.get_char(i);
        if ca != cb {
            let r = (ca as u32) < (cb as u32);
            proof {
                if r {
                    assert(first_difference_at(a@, b@, i as int));
                } else {
                    assert forall|k: int| !#[trigger] first_difference_at(a@, b@, k) by {
                        if first_difference_at(a@, b@, k) && k > i {
                            assert(a@[i as int] == b@[i as int]);
                        }
                    }
                }
            }
            return r;
        }
        i += 1;
    }
    let r = la < lb;
    proof {
        if r {
            assert(first_difference_at(a@, b@, i as int));
        } else {
            assert forall|k: int| !#[trigger] first_difference_at(a@, b@, k) by {}
        }
    }
    r
}

/// `p` is the position of the last `.` of `name`.
pub open spec fn is_last_dot(name: Seq<char>, p: int) -> bool {
    &&& 0 <= p < name.len()
    &&& name[p] == '.'
    &&& forall|j: int| p < j < name.len() ==> name[j] != '.'
}

/// The car a file name stands for: the part before the extension, when the
/// extension is `toml`.  As for a path's extension, a leading dot does not
/// start an extension (".toml" has none).
pub open spec fn toml_stem(name: Seq<char>) -> Option<Seq<char>> {
    if exists|p: int| #[trigger] is_last_dot(name, p) {
        let p = choose|p: int| #[trigger] is_last_dot(name, p);
        if p > 0 && name.subrange(p + 1, name.len() as int) == seq!['t', 'o', 'm', 'l'] {
            Some(name.subrange(0, p))
        } else {
            None
        }
    } else {
        None
    }
}

/// A file name stands for a car exactly when it is longer than ".toml" and
/// ends with ".toml"; the car's name is what comes before that ending.
pub proof fn lemma_toml_stem_meaning(name: Seq<char>)
    ensures
        toml_stem(name) is Some <==> (name.len() > 5 && name.subrange(
            name.len() - 5,
            name.len() as int,
        ) == seq!['.', 't', 'o', 'm', 'l']),
        toml_stem(name) is Some ==> toml_stem(name)->0 == name.subrange(0, name.len() - 5),
{
    let ext = seq!['.', 't', 'o', 'm', 'l'];
    if name.len() > 5 && name.subrange(name.len() - 5, name.len() as int) == ext {
        let p0 = name.len() - 5;
        assert(name[p0] == name.subrange(p0, name.len() as int)[0]);
        assert forall|j: int| p0 < j < name.len() implies name[j] != '.' by {
            assert(name[j] == name.subrange(p0, name.len() as int)[j - p0]);
        }
        assert(is_last_dot(name, p0));
        let p = choose|p: int| #[trigger] is_last_dot(name, p);
        assert(p == p0);
        assert(name.subrange(p + 1, name.len() as int) =~= seq!['t', 'o', 'm', 'l']);
    }
    if toml_stem(name) is Some {
        let p = choose|p: int| #[trigger] is_last_dot(name, p);
        let tail = name.subrange(p + 1, name.len() as int);
        assert(tail.len() == 4);
        assert(name.subrange(name.len() - 5, name.len() as int) =~= ext) by {
            assert(name[p] == '.');
            assert(tail[0] == 't' && tail[1] == 'o' && tail[2] == 'm' && tail[3] == 'l');
        }
    }
}

/// Any two different texts are ordered one way or the other.
pub proof fn lemma_text_lt_total(a: Seq<char>, b: Seq<char>)
    requires
        a != b,
    ensures
        text_lt(a, b) || text_lt(b, a),
{
    lemma_compare_from(a, b, 0);
}

/// Two texts that agree before `k` are equal or ordered one way or the
/// other.
proof fn lemma_compare_from(a: Seq<char>, b: Seq<char>, k: int)
    requires
        0 <= k <= a.len(),
        k <= b.len(),
        forall|j: int| 0 <= j < k ==> a[j] == b[j],
    ensures
        a == b || text_lt(a, b) || text_lt(b, a),
    decreases a.len() - k,
{
    if k == a.len() && k == b.len() {
        assert(a =~= b);
    } else if k == a.len() {
        assert(first_difference_at(a, b, k));
    } else if k == b.len() {
        assert(first_difference_at(b, a, k));
    } else if a[k] == b[k] {
        lemma_compare_from(a, b, k + 1);
    } else if (a[k] as u32) < (b[k] as u32) {
        assert(first_difference_at(a, b, k));
    } else {
        vstd::utf8::char_u32_cast(a[k], a[k] as u32);
        vstd::utf8::char_u32_cast(b[k], b[k] as u32);
        assert(first_difference_at(b, a, k));
    }
}

/// A text sorts before every longer text it begins, and two texts that
/// agree up to a position sort by their characters there.
pub proof fn lemma_text_lt_prefix_and_character(a: Seq<char>, b: Seq<char>, k: int)
    requires
        0 <= k <= a.len(),
        k <= b.len(),
        forall|j: int| 0 <= j < k ==> a[j] == b[j],
    ensures
        k == a.len() && k < b.len() ==> text_lt(a, b),
        k < a.len() && k < b.len() && (a[k] as u32) < (b[k] as u32) ==> text_lt(a, b),
{
    if (k == a.len() && k < b.len()) || (k < a.len() && k < b.len() && (a[k] as u32) < (b[k] as u32)) {
        assert(first_difference_at(a, b, k));
    }
}

/// The cars that a list of file names stands for, in the order of the list.
pub open spec fn toml_stems(names: Seq<Seq<char>>) -> Seq<Seq<char>>
    decreases names.len(),
{
    if names.len() == 0 {
        seq![]
    } else {
        toml_stems(names.drop_last()) + match toml_stem(names.last()) {
            Some(s) => seq![s],
            None => seq![],
        }
    }
}

/// The car a file name stands for, if its extension is `toml`.
pub fn car_name_of(file_name: &str) -> (r: Option<String>)
    ensures
        match r {
            Some(s) => toml_stem(file_name@) == Some(s@),
            None => toml_stem(file_name@) is None,
        },
{
    let n = file_name.unicode_len();
    let mut i: usize = n;
    while i > 0
        invariant
            n == file_name@.len(),
            0 <= i <= n,
            forall|j: int| i <= j < n ==> file_name@[j] != '.',
        ensures
            i == 0 || file_name@[i - 1] == '.',
        decreases i,
    {
        if file_name.get_char(i - 1) == '.' {
            break;
        }
        i -= 1;
    }
    if i == 0 {
        assert(!exists|p: int| #[trigger] is_last_dot(file_name@, p));
        return None;
    }
    let p = i - 1;
    proof {
        assert(is_last_dot(file_name@, p as int));
        let q = choose|q: int| #[trigger] is_last_dot(file_name@, q);
        assert(q == p);
    }
    if p == 0 {
        return None;
    }
    let ext_ok = n - i == 4 && file_name.get_char(i) == 't' && file_name.get_char(i + 1) == 'o'
        && file_name.get_char(i + 2) == 'm' && file_name.get_char(i + 3) == 'l';
    if ext_ok {
        assert(file_name@.subrange(p + 1, n as int) =~= seq!['t', 'o', 'm', 'l']);
        Some(String::from_str(file_name.substring_char(0, p)))
    } else {
        proof {
            if file_name@.subrange(p + 1, n as int) == seq!['t', 'o', 'm', 'l'] {
                assert(file_name@.subrange(p + 1, n as int).len() == 4);
                assert(file_name@.subrange(p + 1, n as int)[0] == file_name@[i as int]);
                assert(file_name@.subrange(p + 1, n as int)[1] == file_name@[i + 1]);
                assert(file_name@.subrange(p + 1, n as int)[2] == file_name@[i + 2]);
                assert(file_name@.subrange(p + 1, n as int)[3] == file_name@[i + 3]);
            }
        }
        None
    }
}

/// Each file name of the list is looked at once, wherever it stands: the
/// stems are those that `toml_stem` keeps, in the order of the list (the
/// list's `filter_map` by `toml_stem`); every `toml` file's stem is among
/// them, and each of them is the stem of a file of the list.
pub proof fn lemma_toml_stems_meaning(names: Seq<Seq<char>>)
    ensures
        toml_stems(names) == names.filter_map(|n: Seq<char>| toml_stem(n)),
        forall|i: int|
            0 <= i < names.len() && #[trigger] toml_stem(names[i]) is Some ==> toml_stems(
                names,
            ).contains(toml_stem(names[i])->0),
        forall|x: Seq<char>|
            #[trigger] toml_stems(names).contains(x) ==> exists|i: int|
                0 <= i < names.len() && toml_stem(#[trigger] names[i]) == Some(x),
    decreases names.len(),
{
    broadcast use vstd::seq_lib::lemma_seq_concat_contains_all_elements;
    broadcast use vstd::seq_lib::lemma_seq_empty_contains_nothing;

    if names.len() > 0 {
        let rest = names.drop_last();
        lemma_toml_stems_meaning(rest);
        let tail = match toml_stem(names.last()) {
            Some(s) => seq![s],
            None => Seq::<Seq<char>>::empty(),
        };
        assert(toml_stems(names) == toml_stems(rest) + tail);
        assert forall|i: int|
            0 <= i < names.len() && #[trigger] toml_stem(names[i]) is Some implies toml_stems(
                names,
            ).contains(toml_stem(names[i])->0) by {
            if i < names.len() - 1 {
                assert(names[i] == rest[i]);
                assert(toml_stems(rest).contains(toml_stem(rest[i])->0));
            } else {
                assert(tail[0] == toml_stem(names[i])->0);
            }
        }
        assert forall|x: Seq<char>| #[trigger] toml_stems(names).contains(x) implies exists|i: int|
            0 <= i < names.len() && toml_stem(#[trigger] names[i]) == Some(x) by {
            if toml_stems(rest).contains(x) {
                let i = choose|i: int| 0 <= i < rest.len() && toml_stem(#[trigger] rest[i]) == Some(x);
                assert(names[i] == rest[i]);
            } else {
                assert(tail.contains(x));
                assert(names[names.len() - 1] == names.last());
            }
        }
    } else {
        assert(toml_stems(names) =~= Seq::<Seq<char>>::empty());
    }
}

/// Inserts `name` into a sorted list, after every entry not above it.
fn insert_sorted(v: &mut Vec<String>, name: String)
    requires
        sorted_texts(texts(old(v)@)),
    ensures
        sorted_texts(texts(final(v)@)),
        texts(final(v)@).to_multiset() == texts(old(v)@).to_multiset().insert(name@),
{
    let ghost t = texts(v@);
    let mut k: usize = 0;
    while k < v.len()
        invariant
            v@ == old(v)@,
            t == texts(v@),
            0 <= k <= v@.len(),
            forall|j: int| 0 <= j < k ==> !text_lt(name@, #[trigger] t[j]),
        ensures
            k < v@.len() ==> text_lt(name@, t[k as int]),
        decreases v.len() - k,
    {
        if text_less(name.as_str(), v[k].as_str()) {
            break;
        }
        assert(t[k as int] == v@[k as int]@);
        k += 1;
    }
    let ghost x = name@;
    proof {
        assert forall|m: int| k <= m < t.len() implies !text_lt(#[trigger] t[m], x) by {
            if text_lt(t[m], x) {
                assert(text_lt(x, t[k as int]));
                lemma_text_lt_transitive(t[m], x, t[k as int]);
                if m == k {
                    lemma_text_lt_irreflexive(t[m]);
                }
            }
        }
    }
    v.insert(k, name);
    let ghost u = texts(v@);
    assert(u =~= t.insert(k as int, x));
    assert(sorted_texts(u)) by {
        assert forall|i: int, j: int| 0 <= i < j < u.len() implies !text_lt(#[trigger] u[j], #[trigger] u[i]) by {
            if j < k {
                assert(u[i] == t[i] && u[j] == t[j]);
            } else if j == k {
                assert(u[i] == t[i] && u[j] == x);
            } else if i > k {
                assert(u[i] == t[i - 1] && u[j] == t[j - 1]);
            } else if i == k {
                assert(u[i] == x && u[j] == t[j - 1]);
            } else {
                assert(u[i] == t[i] && u[j] == t[j - 1]);
            }
        }
    }
}

/// The names of the cars that a directory's file names stand for: the stems
/// of the `toml` files, sorted.
pub fn car_names(file_names: &Vec<String>) -> (out: Vec<String>)
    ensures
        sorted_texts(texts(out@)),
        texts(out@).to_multiset() == toml_stems(texts(file_names@)).to_multiset(),
        texts(out@).to_multiset() == texts(file_names@).filter_map(|n: Seq<char>| toml_stem(n)).to_multiset(),
        forall|i: int|
            0 <= i < file_names@.len() && #[trigger] toml_stem(file_names@[i]@) is Some ==> texts(
                out@,
            ).contains(toml_stem(file_names@[i]@)->0),
        forall|x: Seq<char>|
            #[trigger] texts(out@).contains(x) ==> exists|i: int|
                0 <= i < file_names@.len() && toml_stem(#[trigger] file_names@[i]@) == Some(x),
{
    let mut out: Vec<String> = Vec::new();
    let mut i: usize = 0;
    while i < file_names.len()
        invariant
            0 <= i <= file_names@.len(),
            sorted_texts(texts(out@)),
            texts(out@).to_multiset() == toml_stems(texts(file_names@.subrange(0, i as int))).to_multiset(),
        decreases file_names.len() - i,
    {
        let ghost prefix = texts(file_names@.subrange(0, i as int));
        let ghost next = texts(file_names@.subrange(0, i + 1));
        assert(next.drop_last() =~= prefix);
        assert(next.last() == file_names@[i as int]@);
        match car_name_of(file_names[i].as_str()) {
            Some(stem) => {
                let ghost st = stem@;
                insert_sorted(&mut out, stem);
                assert(toml_stems(next) =~= toml_stems(prefix).push(st));
            },
            None => {
                assert(toml_stems(next) =~= toml_stems(prefix));
            },
        }
        i += 1;
    }
    assert(file_names@.subrange(0, file_names@.len() as int) =~= file_names@);
    proof {
        let all = texts(file_names@);
        lemma_toml_stems_meaning(all);
        assert forall|i: int|
            0 <= i < file_names@.len() && #[trigger] toml_stem(file_names@[i]@) is Some implies texts(
                out@,
            ).contains(toml_stem(file_names@[i]@)->0) by {
            assert(all[i] == file_names@[i]@);
            assert(toml_stems(all).contains(toml_stem(all[i])->0));
            assert(toml_stems(all).to_multiset().count(toml_stem(all[i])->0) > 0);
        }
        assert forall|x: Seq<char>| #[trigger] texts(out@).contains(x) implies exists|i: int|
            0 <= i < file_names@.len() && toml_stem(#[trigger] file_names@[i]@) == Some(x) by {
            assert(texts(out@).to_multiset().count(x) > 0);
            assert(toml_stems(all).contains(x));
            let i = choose|i: int| 0 <= i < all.len() && toml_stem(#[trigger] all[i]) == Some(x);
            assert(all[i] == file_names@[i]@);
        }
    }
    out
}

} // verus!
