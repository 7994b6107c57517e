use vstd::prelude::*;
use vstd::string::StringExecFns;
use vstd::string::StrSliceExecFns;

verus! {

/// The marker that stands in a list for "no such data".
pub open spec fn placeholder() -> Seq<char> {
    seq!['N', '/', 'A']
}

/// What is put in front of every rendered item: the three characters that
/// the bytes of a bullet sign give when they are read as Windows-1252, and a
/// space.
pub open spec fn bullet_prefix() -> Seq<char> {
    seq!['\u{e2}', '\u{20ac}', '\u{a2}', ' ']
}

/// An item is blank when it carries nothing worth showing: the empty string,
/// a single dot, a single space, or the placeholder.
pub open spec fn is_blank(item: Seq<char>) -> bool {
    ||| item =~= Seq::<char>::empty()
    ||| item =~= seq!['.']
    ||| item =~= seq![' ']
    ||| item =~= placeholder()
}

/// The character sequences that a list of strings holds.
pub open spec fn texts(items: Seq<String>) -> Seq<Seq<char>> {
    items.map_values(|s: String| s@)
}

/// The items that are rendered, in the order of the list.
pub open spec fn shown(items: Seq<Seq<char>>) -> Seq<Seq<char>> {
    items.filter(|item: Seq<char>| !is_blank(item))
}

/// One line per rendered item: the prefix, then the item.
pub open spec fn bullet_lines(items: Seq<Seq<char>>) -> Seq<Seq<char>> {
    shown(items).map_values(|item: Seq<char>| bullet_prefix() + item)
}

/// The lines with a line feed between each two neighbours, and none at
/// either end.
pub open spec fn join_lines(lines: Seq<Seq<char>>) -> Seq<char>
    decreases lines.len(),
{
    if lines.len() == 0 {
        Seq::<char>::empty()
    } else if lines.len() == 1 {
        lines[0]
    } else {
        join_lines(lines.drop_last()) + seq!['\n'] + lines.last()
    }
}

/// The rendering of a list: its lines, joined.
pub open spec fn bullets_of(items: Seq<Seq<char>>) -> Seq<char> {
    join_lines(bullet_lines(items))
}

/// Taking one more item either leaves the rendered items as they were (the
/// item is blank) or adds it at the end.
pub proof fn lemma_shown_step(items: Seq<Seq<char>>, i: int)
    requires
        0 <= i < items.len(),
    ensures
        shown(items.take(i + 1)) == if is_blank(items[i]) {
            shown(items.take(i))
        } else {
            shown(items.take(i)).push(items[i])
        },
        bullet_lines(items.take(i + 1)) == if is_blank(items[i]) {
            bullet_lines(items.take(i))
        } else {
            bullet_lines(items.take(i)).push(bullet_prefix() + items[i])
        },
{
    reveal(Seq::filter);
    assert(items.take(i + 1).drop_last() =~= items.take(i));
    assert(items.take(i + 1).last() == items[i]);
    if !is_blank(items[i]) {
        assert(bullet_lines(items.take(i + 1)) =~= bullet_lines(items.take(i)).push(
            bullet_prefix() + items[i],
        ));
    }
}

/// Tells whether an item is blank.
pub fn is_blank_item(item: &str) -> (blank: bool)
    ensures
        blank == is_blank(item@),
{
    let n: usize = item.unicode_len();
    if n == 0 {
        true
    } else if n == 1 {
        let c = item.get_char(0);
        c == '.' || c == ' '
    } else if n == 3 {
        item.get_char(0) == 'N' && item.get_char(1) == '/' && item.get_char(2) == 'A'
    } else {
        false
    }
}

/// Renders a list as bullet lines: blank items are left out, every other item
/// becomes one line, in the order of the list.
pub fn list_to_bullets(lst: &Vec<String>) -> (out: String)
    ensures
        out@ == bullets_of(texts(lst@)),
{
    let ghost items = texts(lst@);
    let mut out = String::new();
    let mut any: bool = false;
    let mut i: usize = 0;
    proof {
        reveal(Seq::filter);
        assert(items.take(0) =~= Seq::<Seq<char>>::empty());
    }
    while i < lst.len()
        invariant
            0 <= i <= lst.len(),
            items == texts(lst@),
            any == (bullet_lines(items.take(i as int)).len() > 0),
            out@ == bullets_of(items.take(i as int)),
        decreases lst.len() - i,
    {
        let item = lst[i].as_str();
        proof {
            lemma_shown_step(items, i as int);
            reveal_strlit("\n");
            reveal_strlit("\u{e2}\u{20ac}\u{a2} ");
            assert("\n"@ =~= seq!['\n']);
            assert("\u{e2}\u{20ac}\u{a2} "@ =~= bullet_prefix());
        }
        if !is_blank_item(item) {
            let ghost before = bullet_lines(items.take(i as int));
            let ghost after = before.push(bullet_prefix() + item@);
            if any {
                out.append("\n");
            }
            out.append("\u{e2}\u{20ac}\u{a2} ");
            out.append(item);
            proof {
                assert(after.drop_last() =~= before);
                assert(out@ =~= join_lines(after));
            }
            any = true;
        }
        i = i + 1;
    }
    proof {
        assert(items.take(i as int) =~= items);
    }
    out
}

/// No blank item is rendered, every other item is: the lines are the
/// prefixed items that are not blank, one line each, and an item of the list
/// is among the rendered ones exactly if it is not blank.
pub proof fn lemma_blank_items_left_out(items: Seq<Seq<char>>)
    ensures
        bullet_lines(items).len() == shown(items).len(),
        shown(items).len() <= items.len(),
        forall|k: int|
            0 <= k < shown(items).len() ==> #[trigger] bullet_lines(items)[k] == bullet_prefix()
                + shown(items)[k],
        forall|k: int| 0 <= k < shown(items).len() ==> !is_blank(#[trigger] shown(items)[k]),
        forall|i: int|
            0 <= i < items.len() ==> (shown(items).contains(#[trigger] items[i]) <==> !is_blank(
                items[i],
            )),
{
    let keep = |item: Seq<char>| !is_blank(item);
    items.lemma_filter_len(keep);
    assert forall|k: int| 0 <= k < shown(items).len() implies !is_blank(
        #[trigger] shown(items)[k],
    ) by {
        items.lemma_filter_pred(keep, k);
    }
    assert forall|i: int| 0 <= i < items.len() implies (shown(items).contains(#[trigger] items[i])
        <==> !is_blank(items[i])) by {
        if !is_blank(items[i]) {
            items.lemma_filter_contains(keep, i);
        }
        if shown(items).contains(items[i]) {
            let k = choose|k: int| 0 <= k < shown(items).len() && shown(items)[k] == items[i];
            items.lemma_filter_pred(keep, k);
        }
    }
}

/// The rendered items keep the order of the list: the items rendered of two
/// lists put together are those of the first followed by those of the
/// second, and so are the lines.
pub proof fn lemma_order_kept(first: Seq<Seq<char>>, second: Seq<Seq<char>>)
    ensures
        shown(first + second) == shown(first) + shown(second),
        bullet_lines(first + second) == bullet_lines(first) + bullet_lines(second),
{
    let keep = |item: Seq<char>| !is_blank(item);
    Seq::filter_distributes_over_add(first, second, keep);
    assert(bullet_lines(first + second) =~= bullet_lines(first) + bullet_lines(second));
}

} // verus!
