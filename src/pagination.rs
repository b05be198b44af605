//! The pagination resolver: an ordered catalog cut into pages of nine
//! choices, with navigation choices to the neighbouring pages.

use vstd::prelude::*;
use crate::structs::ListChoice;
use crate::text::{before_char, text_before, decimal, decimal_string, decimal_value, is_decimal, is_prefix, min_nat, parse_capped, starts_with};

verus! {

/// The number of catalog items on a page.
pub const PAGE_SIZE: u64 = 9;

/// Page numbers at or above this are not read from navigation choices.
pub const PAGE_LIMIT: u64 = 1_000_000;

/// The catalog items shown on page `page` (from 1).
pub open spec fn page_items(items: Seq<Seq<char>>, page: nat) -> Seq<Seq<char>> {
    let start = min_nat((PAGE_SIZE * (page - 1)) as nat, items.len());
    let end = min_nat((PAGE_SIZE * page) as nat, items.len());
    items.subrange(start as int, end as int)
}

/// Items remain beyond page `page`.
pub open spec fn has_next_page(count: nat, page: nat) -> bool {
    count > PAGE_SIZE * page
}

/// The id of the navigation choice to page `n`, carrying the catalog's
/// parameter where it has one.
pub open spec fn nav_id(n: nat, param: Option<Seq<char>>) -> Seq<char> {
    match param {
        Some(p) => "page-"@ + decimal(n) + "-"@ + p,
        None => "page-"@ + decimal(n),
    }
}

/// A choice as (id, title).
pub open spec fn choice_view(c: ListChoice) -> (Seq<char>, Seq<char>) {
    (c.id@, c.title@)
}

pub open spec fn choice_views(cs: Seq<ListChoice>) -> Seq<(Seq<char>, Seq<char>)> {
    cs.map_values(|c: ListChoice| choice_view(c))
}

/// The choice that selects a catalog item.
pub open spec fn item_choice(item: Seq<char>) -> (Seq<char>, Seq<char>) {
    (item + "-id"@, item)
}

pub open spec fn previous_choice(page: nat, param: Option<Seq<char>>) -> (Seq<char>, Seq<char>) {
    (nav_id((page - 1) as nat, param), "Pagina Anterior"@)
}

pub open spec fn next_choice(page: nat, param: Option<Seq<char>>) -> (Seq<char>, Seq<char>) {
    (nav_id(page + 1, param), "Pagina Siguiente"@)
}

/// Page `page` of a catalog: a choice back to the previous page after the
/// first, the page's items, and a choice on to the next page where items
/// remain.
pub open spec fn page_choices(
    items: Seq<Seq<char>>,
    page: nat,
    param: Option<Seq<char>>,
) -> Seq<(Seq<char>, Seq<char>)> {
    (if page > 1 { seq![previous_choice(page, param)] } else { Seq::empty() })
        + page_items(items, page).map_values(|it: Seq<char>| item_choice(it))
        + (if has_next_page(items.len(), page) { seq![next_choice(page, param)] } else { Seq::empty() })
}

/// A catalog that fits one page is listed whole on page 1, with no
/// navigation choice.
pub proof fn single_page_has_no_navigation(items: Seq<Seq<char>>, param: Option<Seq<char>>)
    requires
        items.len() <= PAGE_SIZE,
    ensures
        page_choices(items, 1, param) == items.map_values(|it: Seq<char>| item_choice(it)),
{
    assert(page_items(items, 1) == items);
    assert(page_choices(items, 1, param) =~= items.map_values(|it: Seq<char>| item_choice(it)));
}

/// The page holding a catalog's last item has no choice on to a next page;
/// past the first page it begins with the choice back.
pub proof fn last_page_has_no_next(items: Seq<Seq<char>>, page: nat, param: Option<Seq<char>>)
    requires
        page >= 1,
        items.len() <= PAGE_SIZE * page,
    ensures
        page_choices(items, page, param) == (if page > 1 { seq![previous_choice(page, param)] } else { Seq::empty() })
            + page_items(items, page).map_values(|it: Seq<char>| item_choice(it)),
{
    assert(page_choices(items, page, param) =~= (if page > 1 { seq![previous_choice(page, param)] } else { Seq::empty() })
        + page_items(items, page).map_values(|it: Seq<char>| item_choice(it)));
}

/// A page past the first with items beyond it lists the choice back, a full
/// page of items, and the choice on.
pub proof fn middle_page_has_both(items: Seq<Seq<char>>, page: nat, param: Option<Seq<char>>)
    requires
        page > 1,
        items.len() > PAGE_SIZE * page,
    ensures
        page_choices(items, page, param).len() == PAGE_SIZE + 2,
        page_choices(items, page, param)[0] == previous_choice(page, param),
        page_choices(items, page, param).last() == next_choice(page, param),
{
    assert(page_items(items, page).len() == PAGE_SIZE) by (nonlinear_arith)
        requires
            page > 1,
            items.len() > PAGE_SIZE * page,
            page_items(items, page).len() == min_nat((PAGE_SIZE * page) as nat, items.len())
                - min_nat((PAGE_SIZE * (page - 1)) as nat, items.len()),
    ;
}

pub open spec fn string_views(v: Seq<String>) -> Seq<Seq<char>> {
    v.map_values(|s: String| s@)
}

/// The page that a navigation choice's id asks for: `page-<n>`, possibly
/// followed by `-<param>`. Whether that page can be shown
/// (`1 <= n < PAGE_LIMIT`) is for the caller to decide.
pub open spec fn page_choice_number(content: Seq<char>) -> Option<nat> {
    if is_prefix("page-"@, content) {
        let digits = before_char(content.subrange(5, content.len() as int), '-');
        if is_decimal(digits) {
            Some(decimal_value(digits))
        } else {
            None
        }
    } else {
        None
    }
}

fn nav_choice_id(n: u64, param: Option<&String>) -> (r: String)
    ensures
        r@ == nav_id(n as nat, match param { Some(p) => Some(p@), None => None }),
{
    let mut id = String::from_str("page-");
    let digits = decimal_string(n);
    id.append(digits.as_str());
    match param {
        Some(p) => {
            id.append("-");
            id.append(p.as_str());
        },
        None => {},
    }
    id
}

fn item_to_choice(item: &String) -> (r: ListChoice)
    ensures
        choice_view(r) == item_choice(item@),
{
    let mut id = item.clone();
    id.append("-id");
    ListChoice { title: item.clone(), id }
}

/// Renders page `page` of an ordered catalog as list choices.
pub fn catalog_page(items: &Vec<String>, page: u64, param: Option<&String>) -> (r: Vec<ListChoice>)
    requires
        1 <= page < PAGE_LIMIT,
    ensures
        choice_views(r@) == page_choices(
            string_views(items@),
            page as nat,
            match param { Some(p) => Some(p@), None => None },
        ),
{
    let ghost pv = match param { Some(p) => Some(p@), None => None::<Seq<char>> };
    let ghost views = string_views(items@);
    let mut out: Vec<ListChoice> = Vec::new();
    if page > 1 {
        let id = nav_choice_id(page - 1, param);
        out.push(ListChoice { title: String::from_str("Pagina Anterior"), id });
    }
    let ghost head = choice_views(out@);
    assert(head == (if page > 1 { seq![previous_choice(page as nat, pv)] } else { Seq::empty() }));
    let len = items.len();
    let start: usize = if (PAGE_SIZE * (page - 1)) as usize <= len { (PAGE_SIZE * (page - 1)) as usize } else { len };
    let end: usize = if (PAGE_SIZE * page) as usize <= len { (PAGE_SIZE * page) as usize } else { len };
    let mut i: usize = start;
    while i < end
        invariant
            start <= i <= end <= len,
            len == items@.len(),
            views == string_views(items@),
            choice_views(out@) == head + views.subrange(start as int, i as int).map_values(
                |it: Seq<char>| item_choice(it),
            ),
        decreases end - i,
    {
        let c = item_to_choice(&items[i]);
        let ghost before = out@;
        out.push(c);
        proof {
            assert(views[i as int] == items@[i as int]@);
            assert(views.subrange(start as int, i as int + 1) == views.subrange(start as int, i as int).push(views[i as int]));
            assert(choice_views(out@) == choice_views(before).push(choice_view(c)));
            assert(views.subrange(start as int, i as int + 1).map_values(|it: Seq<char>| item_choice(it))
                == views.subrange(start as int, i as int).map_values(|it: Seq<char>| item_choice(it)).push(item_choice(views[i as int])));
        }
        i = i + 1;
    }
    assert(views.subrange(start as int, end as int) == page_items(views, page as nat));
    if len > (PAGE_SIZE * page) as usize {
        let id = nav_choice_id(page + 1, param);
        let ghost before = out@;
        out.push(ListChoice { title: String::from_str("Pagina Siguiente"), id });
        assert(choice_views(out@) == choice_views(before).push(next_choice(page as nat, pv)));
    }
    out
}

/// The page that a navigation choice's id asks for, read up to
/// `PAGE_LIMIT` (any larger page reads as `PAGE_LIMIT`), or `None` where the
/// content is no navigation choice.
pub fn parse_page_choice(content: &str) -> (r: Option<u64>)
    ensures
        match r {
            Some(v) => page_choice_number(content@) matches Some(n)
                && v as nat == min_nat(n, PAGE_LIMIT as nat),
            None => page_choice_number(content@) is None,
        },
{
    if !starts_with(content, "page-") {
        return None;
    }
    proof { reveal_strlit("page-"); }
    let n = content.unicode_len();
    let rest = content.substring_char(5, n);
    let digits = text_before(rest, '-');
    parse_capped(digits, PAGE_LIMIT)
}

} // verus!
