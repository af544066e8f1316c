//! Work-in-progress markers in pull request titles (`WIP: ...`, `[WIP] ...`).
use vstd::prelude::*;
use crate::forge_host::{
    case_equal, lemma_ascii_lower_char, lemma_case_equal_find_from, lemma_case_equal_same_at,
    lemma_case_equal_subrange, lemma_case_equal_trim_end, lemma_case_equal_trim_start, non_letter,
    upper,
};
use crate::text::{ascii_lower, lemma_find_from,
    chars_of, concat, eq_ignore_ascii_case, find_from, lower, occurs_at, trim_end, eq_ignore_ascii_case_chars, find_char, find_char_in,
    string_from_chars, subvec, trim, trim_chars, trim_start, trim_start_chars,
};

verus! {

broadcast use vstd::string::group_string_axioms;

/// `wip`
pub open spec fn wip_word() -> Seq<char> {
    seq!['w', 'i', 'p']
}

/// `WIP: `
pub open spec fn wip_marker() -> Seq<char> {
    seq!['W', 'I', 'P', ':', ' ']
}

/// The title after a leading work-in-progress marker, if it has one: either
/// `wip` (any case, whitespace around it allowed) before the first `:`, or
/// `[wip]` at the start; whitespace after the marker is dropped too.
pub open spec fn split_draft_prefix(title: Seq<char>) -> Option<Seq<char>> {
    let t = trim_start(title);
    match find_char(t, ':') {
        Some(i) if eq_ignore_ascii_case(trim(t.take(i)), wip_word()) => Some(
            trim_start(t.skip(i + 1)),
        ),
        _ => {
            if t.len() > 0 && t[0] == '[' {
                let bracketed = t.skip(1);
                match find_char(bracketed, ']') {
                    Some(j) if eq_ignore_ascii_case(trim(bracketed.take(j)), wip_word()) => Some(
                        trim_start(bracketed.skip(j + 1)),
                    ),
                    _ => None,
                }
            } else {
                None
            }
        },
    }
}

/// The title carries a work-in-progress marker.
pub open spec fn has_draft_prefix(title: Seq<char>) -> bool {
    split_draft_prefix(title) is Some
}

/// The title without its work-in-progress marker (unchanged when it has none).
pub open spec fn remove_draft_prefix(title: Seq<char>) -> Seq<char> {
    match split_draft_prefix(title) {
        Some(rest) => rest,
        None => title,
    }
}

/// The title for the requested draft state: a draft keeps an existing marker
/// or gains `WIP: `; a ready pull request loses its marker.
pub open spec fn title_for_draft_state(title: Seq<char>, is_draft: bool) -> Seq<char> {
    if is_draft {
        if has_draft_prefix(title) {
            title
        } else {
            wip_marker() + title
        }
    } else {
        remove_draft_prefix(title)
    }
}

/// The `WIP: ` marker splits off, leaving the rest without its leading
/// whitespace.
proof fn lemma_marker_splits_off(title: Seq<char>)
    ensures
        split_draft_prefix(wip_marker() + title) == Some(trim_start(title)),
{
    let m = wip_marker() + title;
    assert(m[0] == 'W');
    assert(trim_start(m) == m);
    let colon = seq![':'];
    assert(!occurs_at(m, colon, 0)) by {
        assert(m.subrange(0, 1)[0] == 'W');
    }
    assert(!occurs_at(m, colon, 1)) by {
        assert(m.subrange(1, 2)[0] == 'I');
    }
    assert(!occurs_at(m, colon, 2)) by {
        assert(m.subrange(2, 3)[0] == 'P');
    }
    assert(occurs_at(m, colon, 3)) by {
        assert(m.subrange(3, 4) =~= colon);
    }
    assert(find_from(m, colon, 3) == Some(3int));
    assert(find_from(m, colon, 2) == Some(3int));
    assert(find_from(m, colon, 1) == Some(3int));
    assert(find_from(m, colon, 0) == Some(3int));
    assert(find_char(m, ':') == Some(3int));
    let word = m.take(3);
    assert(word =~= seq!['W', 'I', 'P']);
    assert(trim_start(word) == word);
    assert(trim_end(word) == word);
    assert(trim(word) == word);
    assert(lower(word) =~= lower(wip_word()));
    let rest = m.skip(4);
    assert(rest[0] == ' ');
    assert(rest.drop_first() =~= title);
}

/// A lowercase `wip: ` marker splits off too, leaving the rest without its
/// leading whitespace: the marker's case does not matter.
pub proof fn law_lowercase_marker_splits_off(title: Seq<char>)
    ensures
        split_draft_prefix(seq!['w', 'i', 'p', ':', ' '] + title) == Some(trim_start(title)),
{
    let m = seq!['w', 'i', 'p', ':', ' '] + title;
    assert(m[0] == 'w');
    assert(trim_start(m) == m);
    let colon = seq![':'];
    assert(!occurs_at(m, colon, 0)) by {
        assert(m.subrange(0, 1)[0] == 'w');
    }
    assert(!occurs_at(m, colon, 1)) by {
        assert(m.subrange(1, 2)[0] == 'i');
    }
    assert(!occurs_at(m, colon, 2)) by {
        assert(m.subrange(2, 3)[0] == 'p');
    }
    assert(occurs_at(m, colon, 3)) by {
        assert(m.subrange(3, 4) =~= colon);
    }
    assert(find_from(m, colon, 3) == Some(3int));
    assert(find_from(m, colon, 2) == Some(3int));
    assert(find_from(m, colon, 1) == Some(3int));
    assert(find_from(m, colon, 0) == Some(3int));
    assert(find_char(m, ':') == Some(3int));
    let word = m.take(3);
    assert(word =~= wip_word());
    assert(trim_start(word) == word);
    assert(trim_end(word) == word);
    assert(trim(word) == word);
    let rest = m.skip(4);
    assert(rest[0] == ' ');
    assert(rest.drop_first() =~= title);
}

/// A bracketed `[wip]` marker splits off too, leaving the rest without its
/// leading whitespace, whatever the rest holds.
pub proof fn law_bracketed_marker_splits_off(title: Seq<char>)
    ensures
        split_draft_prefix(seq!['[', 'w', 'i', 'p', ']'] + title) == Some(trim_start(title)),
{
    let m = seq!['[', 'w', 'i', 'p', ']'] + title;
    assert(m[0] == '[');
    assert(trim_start(m) == m);
    let colon = seq![':'];
    lemma_find_from(m, colon, 0);
    match find_char(m, ':') {
        Some(i) => {
            let w = trim(m.take(i));
            assert(m.take(i)[0] == '[') by {
                if i == 0 {
                    assert(m.subrange(0, 1)[0] == '[');
                }
            }
            assert(trim_start(m.take(i)) == m.take(i));
            let k = crate::forge_host::lemma_trim_end_takes(m.take(i));
            assert(w == m.take(i).take(k));
            if eq_ignore_ascii_case(w, wip_word()) {
                assert(lower(w).len() == 3);
                assert(w[0] == m.take(i)[0]);
                lemma_ascii_lower_char('[', '[');
                assert(lower(w)[0] == ascii_lower('['));
                assert(lower(wip_word())[0] == ascii_lower('w'));
                assert(false);
            }
        },
        None => {},
    }
    let b = m.skip(1);
    let close = seq![']'];
    assert(!occurs_at(b, close, 0)) by {
        assert(b.subrange(0, 1)[0] == 'w');
    }
    assert(!occurs_at(b, close, 1)) by {
        assert(b.subrange(1, 2)[0] == 'i');
    }
    assert(!occurs_at(b, close, 2)) by {
        assert(b.subrange(2, 3)[0] == 'p');
    }
    assert(occurs_at(b, close, 3)) by {
        assert(b.subrange(3, 4) =~= close);
    }
    assert(find_from(b, close, 3) == Some(3int));
    assert(find_from(b, close, 2) == Some(3int));
    assert(find_from(b, close, 1) == Some(3int));
    assert(find_from(b, close, 0) == Some(3int));
    assert(find_char(b, ']') == Some(3int));
    let word = b.take(3);
    assert(word =~= wip_word());
    assert(trim_start(word) == word);
    assert(trim_end(word) == word);
    assert(trim(word) == word);
    assert(b.skip(4) =~= title);
}

/// Titles equal but for ASCII case agree on carrying a marker.
proof fn lemma_case_equal_draft_prefix(t: Seq<char>, u: Seq<char>)
    requires
        case_equal(t, u),
    ensures
        has_draft_prefix(t) == has_draft_prefix(u),
{
    let t1 = trim_start(t);
    let u1 = trim_start(u);
    lemma_case_equal_trim_start(t, u);
    let colon = seq![':'];
    assert(forall|k: int| 0 <= k < colon.len() ==> non_letter(#[trigger] colon[k]));
    lemma_case_equal_find_from(t1, u1, colon, 0);
    crate::text::lemma_find_from(t1, colon, 0);
    let colon_marker = match find_char(t1, ':') {
        Some(i) => {
            lemma_case_equal_subrange(t1, u1, 0, i);
            lemma_case_equal_trim_start(t1.take(i), u1.take(i));
            lemma_case_equal_trim_end(trim_start(t1.take(i)), trim_start(u1.take(i)));
            lemma_case_equal_lower(trim(t1.take(i)), trim(u1.take(i)));
            eq_ignore_ascii_case(trim(t1.take(i)), wip_word())
        },
        None => false,
    };
    if !colon_marker && t1.len() > 0 {
        lemma_case_equal_same_at(t1, u1, 0, '[');
        if t1[0] == '[' {
            lemma_case_equal_subrange(t1, u1, 1, t1.len() as int);
            let bt = t1.skip(1);
            let bu = u1.skip(1);
            let close = seq![']'];
            assert(forall|k: int| 0 <= k < close.len() ==> non_letter(#[trigger] close[k]));
            lemma_case_equal_find_from(bt, bu, close, 0);
            crate::text::lemma_find_from(bt, close, 0);
            match find_char(bt, ']') {
                Some(j) => {
                    lemma_case_equal_subrange(bt, bu, 0, j);
                    lemma_case_equal_trim_start(bt.take(j), bu.take(j));
                    lemma_case_equal_trim_end(trim_start(bt.take(j)), trim_start(bu.take(j)));
                    lemma_case_equal_lower(trim(bt.take(j)), trim(bu.take(j)));
                },
                None => {},
            }
        }
    }
}

proof fn lemma_case_equal_lower(v: Seq<char>, w: Seq<char>)
    requires
        case_equal(v, w),
    ensures
        lower(v) == lower(w),
{
    assert(lower(v) =~= lower(w));
}

/// Whether a title carries a work-in-progress marker does not depend on
/// ASCII case: a title and its ASCII uppercase agree.
pub proof fn law_draft_marker_ignores_case(title: Seq<char>)
    ensures
        has_draft_prefix(upper(title)) == has_draft_prefix(title),
{
    assert forall|i: int| 0 <= i < upper(title).len() implies ascii_lower(#[trigger] upper(title)[i])
        == ascii_lower(title[i]) by {
        lemma_ascii_lower_char(title[i], title[i]);
    }
    lemma_case_equal_draft_prefix(upper(title), title);
}

/// A title marked as a draft carries a work-in-progress marker, whatever the
/// title was before.
pub proof fn law_draft_title_is_marked(title: Seq<char>)
    ensures
        has_draft_prefix(title_for_draft_state(title, true)),
{
    lemma_marker_splits_off(title);
}

/// Marking a title as ready undoes marking it as a draft: a title without a
/// marker and without leading whitespace comes back unchanged.
pub proof fn law_ready_undoes_draft(title: Seq<char>)
    requires
        !has_draft_prefix(title),
        trim_start(title) == title,
    ensures
        title_for_draft_state(title_for_draft_state(title, true), false) == title,
{
    lemma_marker_splits_off(title);
}

/// Marking a title as a draft a second time changes nothing.
pub proof fn law_draft_marking_is_idempotent(title: Seq<char>)
    ensures
        title_for_draft_state(title_for_draft_state(title, true), true)
            == title_for_draft_state(title, true),
{
    law_draft_title_is_marked(title);
}

fn wip_chars() -> (r: Vec<char>)
    ensures
        r@ == wip_word(),
{
    let v = chars_of("wip");
    proof {
        reveal_strlit("wip");
        assert(v@ =~= wip_word());
    }
    v
}

/// The rest of the title after a leading work-in-progress marker.
pub fn split_draft_prefix_chars(title: &Vec<char>) -> (r: Option<Vec<char>>)
    ensures
        match r {
            Some(rest) => split_draft_prefix(title@) == Some(rest@),
            None => split_draft_prefix(title@) is None,
        },
{
    let t = trim_start_chars(title);
    let wip = wip_chars();
    match find_char_in(&t, ':') {
        Some(i) => {
            let prefix = trim_chars(&subvec(&t, 0, i));
            proof {
                assert(t@.subrange(0, i as int) =~= t@.take(i as int));
            }
            if eq_ignore_ascii_case_chars(&prefix, &wip) {
                let rest = subvec(&t, i + 1, t.len());
                proof {
                    assert(rest@ =~= t@.skip(i + 1));
                }
                return Some(trim_start_chars(&rest));
            }
        },
        None => {},
    }
    if t.len() > 0 && t[0] == '[' {
        let bracketed = subvec(&t, 1, t.len());
        proof {
            assert(bracketed@ =~= t@.skip(1));
        }
        match find_char_in(&bracketed, ']') {
            Some(j) => {
                let prefix = trim_chars(&subvec(&bracketed, 0, j));
                proof {
                    assert(bracketed@.subrange(0, j as int) =~= bracketed@.take(j as int));
                }
                if eq_ignore_ascii_case_chars(&prefix, &wip) {
                    let rest = subvec(&bracketed, j + 1, bracketed.len());
                    proof {
                        assert(rest@ =~= bracketed@.skip(j + 1));
                    }
                    return Some(trim_start_chars(&rest));
                }
            },
            None => {},
        }
    }
    None
}

/// The title carries a work-in-progress marker.
pub fn has_draft_prefix_chars(title: &Vec<char>) -> (r: bool)
    ensures
        r == has_draft_prefix(title@),
{
    split_draft_prefix_chars(title).is_some()
}

/// The title without its work-in-progress marker.
pub fn remove_draft_prefix_chars(title: &Vec<char>) -> (r: Vec<char>)
    ensures
        r@ == remove_draft_prefix(title@),
{
    match split_draft_prefix_chars(title) {
        Some(rest) => rest,
        None => subvec(title, 0, title.len()),
    }
}

/// The title for the requested draft state.
pub fn update_draft_state_in_title(title: &str, is_draft: bool) -> (r: String)
    ensures
        r@ == title_for_draft_state(title@, is_draft),
{
    let chars = chars_of(title);
    if is_draft {
        if has_draft_prefix_chars(&chars) {
            string_from_chars(&chars)
        } else {
            let marker = chars_of("WIP: ");
            proof {
                reveal_strlit("WIP: ");
                assert(marker@ =~= wip_marker());
            }
            string_from_chars(&concat(&marker, &chars))
        }
    } else {
        string_from_chars(&remove_draft_prefix_chars(&chars))
    }
}

/// The title carries a work-in-progress marker.
pub fn has_draft_prefix_in(title: &str) -> (r: bool)
    ensures
        r == has_draft_prefix(title@),
{
    has_draft_prefix_chars(&chars_of(title))
}

} // verus!
