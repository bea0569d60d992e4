//! What this library makes of the answers of the operating system.
//!
//! Asking the system is left to the program. Here is what is done with
//! the answer: finding the name of a time zone in the path that the
//! system's link to its zone file points to.

use vstd::prelude::*;
use vstd::string::StrSliceExecFns;

use crate::cal::fmt::iso::push_char;

verus! {

/// Whether a character is a capital letter, as Unicode has it (the
/// property `Uppercase`): what `is_uppercase` of std's `char` returns.
pub uninterp spec fn is_uppercase(c: char) -> bool;

/// Whether a character is a capital letter. This is `is_uppercase` of
/// std's `char`, which looks the character up in the tables of Unicode.
#[verifier::external_body]
fn char_is_uppercase(c: char) -> (r: bool)
    ensures
        r == is_uppercase(c),
{
    c.is_uppercase()
}

/// The pieces of a path between its slashes, in their order. A path
/// without a slash is one piece; two slashes in a row, or one at either
/// end, leave an empty piece.
pub open spec fn pieces(path: Seq<char>) -> Seq<Seq<char>>
    decreases path.len(),
{
    if path.len() == 0 {
        seq![Seq::<char>::empty()]
    } else if path.last() == '/' {
        pieces(path.drop_last()).push(Seq::<char>::empty())
    } else {
        let before = pieces(path.drop_last());
        before.drop_last().push(before.last().push(path.last()))
    }
}

/// Whether a piece of a path is no component of it: it is empty, or it
/// is the single dot that stands for the directory itself.
pub open spec fn is_skipped(piece: Seq<char>) -> bool {
    piece.len() == 0 || piece =~= seq!['.']
}

/// Whether a piece could be a component of the name of a time zone in
/// the zoneinfo database: it begins with a capital letter.
pub open spec fn is_tz_piece(piece: Seq<char>) -> bool {
    piece.len() > 0 && is_uppercase(piece[0])
}

/// The components at the end of a path which could all be components of
/// the name of a time zone, in their order: going back from the end, all
/// up to the first that could be none.
pub open spec fn tz_components(pieces: Seq<Seq<char>>) -> Seq<Seq<char>>
    decreases pieces.len(),
{
    if pieces.len() == 0 {
        Seq::empty()
    } else if is_skipped(pieces.last()) {
        tz_components(pieces.drop_last())
    } else if is_tz_piece(pieces.last()) {
        tz_components(pieces.drop_last()).push(pieces.last())
    } else {
        Seq::empty()
    }
}

/// Components put together with a slash between each two.
pub open spec fn joined(components: Seq<Seq<char>>) -> Seq<char>
    decreases components.len(),
{
    if components.len() == 0 {
        Seq::empty()
    } else if components.len() == 1 {
        components[0]
    } else {
        joined(components.drop_last()) + seq!['/'] + components.last()
    }
}

/// The name of a time zone that a path ends in: its last components as
/// long as each begins with a capital letter, with slashes between them.
/// It is empty if the last component begins with anything else.
pub open spec fn tz_name(path: Seq<char>) -> Seq<char> {
    joined(tz_components(pieces(path)))
}

/// The pieces that are components, in their order.
spec fn kept(pieces: Seq<Seq<char>>) -> Seq<Seq<char>>
    decreases pieces.len(),
{
    if pieces.len() == 0 {
        Seq::empty()
    } else if is_skipped(pieces.last()) {
        kept(pieces.drop_last())
    } else {
        kept(pieces.drop_last()).push(pieces.last())
    }
}

/// The texts that a list of lists of characters holds.
spec fn texts(lists: Seq<Vec<char>>) -> Seq<Seq<char>> {
    lists.map_values(|list: Vec<char>| list@)
}

/// Where every piece from `from` on is skipped or could be a component
/// of a name, and the piece before is neither, the components of the
/// name are the components among the pieces from `from` on.
proof fn lemma_tz_components(pieces: Seq<Seq<char>>, from: int)
    requires
        0 <= from <= pieces.len(),
        forall|i: int| from <= i < pieces.len() ==> is_skipped(pieces[i]) || is_tz_piece(pieces[i]),
        from > 0 ==> !is_skipped(pieces[from - 1]) && !is_tz_piece(pieces[from - 1]),
    ensures
        tz_components(pieces) == kept(pieces.subrange(from, pieces.len() as int)),
    decreases pieces.len() - from,
{
    let rest = pieces.subrange(from, pieces.len() as int);
    if from == pieces.len() {
        assert(rest.len() == 0);
        if from > 0 {
        }
    } else {
        let shorter = pieces.drop_last();
        assert(forall|i: int| 0 <= i < shorter.len() ==> shorter[i] == pieces[i]);
        lemma_tz_components(shorter, from);
        assert(shorter.subrange(from, shorter.len() as int) =~= rest.drop_last());
        assert(rest.last() == pieces.last());
    }
}

/// The characters of a text, as a list.
fn chars_of(text: &str) -> (r: Vec<char>)
    ensures
        r@ == text@,
{
    let length = text.unicode_len();
    let mut chars: Vec<char> = Vec::new();
    let mut index: usize = 0;
    while index < length
        invariant
            length == text@.len(),
            index <= length,
            chars@ =~= text@.take(index as int),
        decreases length - index,
    {
        chars.push(text.get_char(index));
        index += 1;
    }
    assert(text@.take(length as int) =~= text@);
    chars
}

/// The pieces of a path between its slashes.
fn split_path(path: &Vec<char>) -> (r: Vec<Vec<char>>)
    ensures
        texts(r@) == pieces(path@),
{
    let mut done: Vec<Vec<char>> = Vec::new();
    let mut current: Vec<char> = Vec::new();
    let mut index: usize = 0;
    while index < path.len()
        invariant
            index <= path@.len(),
            texts(done@).push(current@) =~= pieces(path@.take(index as int)),
        decreases path@.len() - index,
    {
        let c = path[index];
        proof {
            let now = path@.take(index + 1);
            assert(now.drop_last() =~= path@.take(index as int));
            assert(now.last() == c);
        }
        if c == '/' {
            let ghost before = done@;
            done.push(current);
            current = Vec::new();
            assert(texts(done@) =~= texts(before).push(done@.last()@));
        } else {
            current.push(c);
        }
        index += 1;
    }
    assert(path@.take(path@.len() as int) =~= path@);
    let ghost before = done@;
    done.push(current);
    assert(texts(done@) =~= texts(before).push(done@.last()@));
    done
}

/// Returns whether the piece could be used as a component of a zoneinfo
/// timezone name, which in this case is whether its first character is
/// a capital letter.
fn is_tz_component(component: &Vec<char>) -> (r: bool)
    ensures
        r == is_tz_piece(component@),
{
    component.len() > 0 && char_is_uppercase(component[0])
}

/// Returns whether the piece is no component of the path.
fn is_no_component(piece: &Vec<char>) -> (r: bool)
    ensures
        r == is_skipped(piece@),
{
    piece.len() == 0 || (piece.len() == 1 && piece[0] == '.')
}

/// Given a path, returns the zoneinfo timezone name that can be detected
/// at the end of that path: `Europe/London` for
/// `/usr/share/zoneinfo/Europe/London`. The name is empty if the path
/// does not end in a component that begins with a capital letter.
pub fn extract_timezone(path: &str) -> (r: Option<String>)
    ensures
        r matches Some(name) && name@ == tz_name(path@),
{
    let chars = chars_of(path);
    let parts = split_path(&chars);

    // Go back from the end as long as the pieces could belong to a name.
    let mut from: usize = parts.len();
    while from > 0 && (is_no_component(&parts[from - 1]) || is_tz_component(&parts[from - 1]))
        invariant
            from <= parts@.len(),
            forall|i: int|
                from <= i < parts@.len() ==> is_skipped(#[trigger] texts(parts@)[i]) || is_tz_piece(
                    texts(parts@)[i],
                ),
        decreases from,
    {
        from -= 1;
    }
    proof {
        lemma_tz_components(texts(parts@), from as int);
    }

    // Put them together, with slashes between them.
    let mut name = String::new();
    let mut any = false;
    let mut index: usize = from;
    while index < parts.len()
        invariant
            from <= index <= parts@.len(),
            any == (kept(texts(parts@).subrange(from as int, index as int)).len() > 0),
            name@ == joined(kept(texts(parts@).subrange(from as int, index as int))),
        decreases parts@.len() - index,
    {
        proof {
            let next = texts(parts@).subrange(from as int, index + 1);
            assert(next.drop_last() =~= texts(parts@).subrange(from as int, index as int));
            assert(next.last() == parts@[index as int]@);
        }
        if !is_no_component(&parts[index]) {
            if any {
                push_char(&mut name, '/');
            }
            let part = &parts[index];
            let ghost start = name@;
            let mut at: usize = 0;
            while at < part.len()
                invariant
                    at <= part@.len(),
                    name@ == start + part@.take(at as int),
                decreases part@.len() - at,
            {
                push_char(&mut name, part[at]);
                assert(part@.take(at + 1) =~= part@.take(at as int).push(part@[at as int]));
                at += 1;
            }
            assert(part@.take(part@.len() as int) =~= part@);
            proof {
                let before = kept(texts(parts@).subrange(from as int, index as int));
                assert(kept(texts(parts@).subrange(from as int, index + 1)) == before.push(part@));
                assert(before.push(part@).drop_last() =~= before);
                if before.len() == 0 {
                    assert(name@ =~= part@);
                }
            }
            any = true;
        }
        index += 1;
    }
    assert(texts(parts@).subrange(from as int, parts@.len() as int) =~= texts(parts@).subrange(
        from as int,
        texts(parts@).len() as int,
    ));
    Some(name)
}

/// The name of the system's time zone, given the path that the system's
/// link to its zone file points to, or nothing if the link could not be
/// read: the name at the end of the path, or nothing if there is none.
pub fn timezone_of_link(link: Option<&str>) -> (r: Option<String>)
    ensures
        match link {
            Some(path) => if tz_name(path@).len() > 0 {
                r matches Some(name) && name@ == tz_name(path@)
            } else {
                r.is_none()
            },
            None => r.is_none(),
        },
{
    let path = match link {
        Some(path) => path,
        None => { return None; },
    };
    if let Some(tz) = extract_timezone(path) {
        if tz.as_str().unicode_len() > 0 {
            return Some(tz);
        }
    }
    None
}

} // verus!
