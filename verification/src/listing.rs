//! The queue listing: pages of ten tracks, one line per track, browsed with
//! four buttons.

use vstd::prelude::*;
use vstd::utf8::{encode_utf8, decode_utf8, is_char_boundary};
use crate::text::{
    decimal, pad_left, pad_right, chars_of, push_char, push_chars, push_decimal, push_spaces,
    push_str, str_eq,
};
use crate::timestamp::{timestamp_text, push_timestamp};
use crate::seek::{all_digits, digits_value, lemma_decimal_digits};

verus! {

/// Tracks shown on one page of the listing.
pub const PAGE_SIZE: usize = 10;

/// Width, in characters, of the title column; also the number of bytes a
/// title is cut to.
pub const TITLE_WIDTH: usize = 36;

/// What the listing reads of a queued track: its title and its length in
/// whole seconds, where the track's metadata has them.
pub struct QueueEntry {
    pub title: Option<String>,
    pub duration_secs: Option<u64>,
}

/// A title cut to its first 36 bytes of UTF-8 when it is longer.
pub open spec fn short_title(title: Seq<char>) -> Seq<char> {
    if encode_utf8(title).len() > 36 {
        decode_utf8(encode_utf8(title).subrange(0, 36))
    } else {
        title
    }
}

/// A title can be cut: it is at most 36 bytes long, or its 36th byte ends
/// a character (slicing a `str` elsewhere panics). Its length in bytes
/// fits in a `usize`, as that of every string does.
pub open spec fn title_cuttable(title: Seq<char>) -> bool {
    &&& encode_utf8(title).len() <= usize::MAX
    &&& encode_utf8(title).len() > 36 ==> is_char_boundary(encode_utf8(title), 36)
}

/// The line of the track at queue position `number` (`{:>2}) {:<36} {:>}`).
pub open spec fn queue_line(number: nat, title: Seq<char>, secs: nat) -> Seq<char> {
    pad_left(decimal(number), 2) + ") "@ + pad_right(short_title(title), 36) + " "@
        + timestamp_text(secs) + "\n"@
}

/// The line of the track at index `k` of `tracks`.
pub open spec fn entry_line(tracks: Seq<QueueEntry>, k: int) -> Seq<char> {
    queue_line(
        (k + 1) as nat,
        tracks[k].title->Some_0@,
        tracks[k].duration_secs->Some_0 as nat,
    )
}

/// The lines of the tracks at indices `from` to `to - 1`.
pub open spec fn queue_lines(tracks: Seq<QueueEntry>, from: int, to: int) -> Seq<char>
    decreases to - from,
{
    if to <= from {
        Seq::empty()
    } else {
        queue_lines(tracks, from, to - 1) + entry_line(tracks, to - 1)
    }
}

/// The first index shown on `page`.
pub open spec fn page_start(page: nat) -> nat {
    10 * page
}

/// One past the last index shown on `page` of a queue of `len` tracks.
pub open spec fn page_end(len: nat, page: nat) -> nat {
    if page_start(page) + 10 <= len {
        page_start(page) + 10
    } else {
        len
    }
}

/// The listing of `page`: a code block of the lines of its tracks.
pub open spec fn queue_listing(tracks: Seq<QueueEntry>, page: nat) -> Seq<char> {
    "```ml\n"@ + queue_lines(tracks, page_start(page) as int, page_end(tracks.len(), page) as int)
        + "```"@
}

/// The tracks of `page` can be listed: each has a title and a length, and
/// its title can be cut.
pub open spec fn page_listable(tracks: Seq<QueueEntry>, page: nat) -> bool {
    forall|k: int|
        page_start(page) <= k < page_end(tracks.len(), page) ==> {
            &&& (#[trigger] tracks[k]).title is Some
            &&& tracks[k].duration_secs is Some
            &&& title_cuttable(tracks[k].title->Some_0@)
        }
}

/// A number has one digit exactly when it is below ten.
proof fn lemma_decimal_len(n: nat)
    ensures
        decimal(n).len() == 1 <==> n < 10,
        decimal(n).len() >= 1,
    decreases n,
{
    if n >= 10 {
        lemma_decimal_len(n / 10);
    }
}

/// The first `36` bytes of `title`, or all of it when it is shorter.
fn cut_title(title: &String) -> (r: &str)
    requires
        title_cuttable(title@),
    ensures
        r@ == short_title(title@),
{
    let t = title.as_str();
    if t.len() > TITLE_WIDTH {
        let (head, _) = t.split_at(TITLE_WIDTH);
        proof {
            vstd::utf8::encode_utf8_decode_utf8(head@);
            assert(t@ == title@);
            assert(encode_utf8(head@) == encode_utf8(title@).subrange(0, 36));
        }
        head
    } else {
        t
    }
}

/// Appends the line of the track at queue position `number`.
fn push_queue_line(s: &mut String, number: usize, title: &String, secs: u64)
    requires
        title_cuttable(title@),
    ensures
        final(s)@ == old(s)@ + queue_line(number as nat, title@, secs as nat),
{
    proof {
        lemma_decimal_len(number as nat);
    }
    if number < 10 {
        push_char(s, ' ');
    }
    push_decimal(s, number as u64);
    assert(s@ =~= old(s)@ + pad_left(decimal(number as nat), 2));
    let ghost after_number = s@;
    push_str(s, ") ");
    let cut = chars_of(cut_title(title));
    push_chars(s, &cut);
    if cut.len() < TITLE_WIDTH {
        push_spaces(s, TITLE_WIDTH - cut.len());
    }
    assert(s@ =~= after_number + ") "@ + pad_right(short_title(title@), 36));
    push_str(s, " ");
    push_timestamp(s, secs);
    push_str(s, "\n");
    assert(s@ =~= old(s)@ + queue_line(number as nat, title@, secs as nat));
}

/// Builds the listing of `page` of `tracks`.
pub fn build_queue(tracks: &[QueueEntry], page: usize) -> (r: String)
    requires
        10 * page <= usize::MAX,
        page_listable(tracks@, page as nat),
    ensures
        r@ == queue_listing(tracks@, page as nat),
{
    let start_idx = PAGE_SIZE * page;
    let end_idx = if tracks.len() >= PAGE_SIZE && start_idx <= tracks.len() - PAGE_SIZE {
        start_idx + PAGE_SIZE
    } else {
        tracks.len()
    };
    let mut description = String::new();
    push_str(&mut description, "```ml\n");
    let ghost head = description@;
    let mut k = start_idx;
    while k < end_idx
        invariant
            start_idx == page_start(page as nat),
            end_idx == page_end(tracks@.len(), page as nat),
            end_idx <= tracks@.len(),
            start_idx <= k,
            k <= end_idx || k == start_idx,
            page_listable(tracks@, page as nat),
            description@ == head + queue_lines(tracks@, start_idx as int, k as int),
        decreases end_idx - k,
    {
        let entry = &tracks[k];
        assert(entry == tracks@[k as int]);
        let title = match &entry.title {
            Some(t) => t,
            None => {
                proof {
                    assert(false);
                }
                return description;
            },
        };
        let secs = match entry.duration_secs {
            Some(d) => d,
            None => {
                proof {
                    assert(false);
                }
                return description;
            },
        };
        push_queue_line(&mut description, k + 1, title, secs);
        k = k + 1;
    }
    assert(description@ =~= head + queue_lines(tracks@, start_idx as int, end_idx as int)) by {
        if end_idx < start_idx {
            assert(queue_lines(tracks@, start_idx as int, k as int) =~= Seq::<char>::empty());
            assert(queue_lines(tracks@, start_idx as int, end_idx as int) =~= Seq::<char>::empty());
        }
    }
    push_str(&mut description, "```");
    description
}


/// A character takes at least one byte of UTF-8.
proof fn lemma_encode_utf8_len(chars: Seq<char>)
    ensures
        encode_utf8(chars).len() >= chars.len(),
    decreases chars.len(),
{
    if chars.len() > 0 {
        lemma_encode_utf8_len(chars.drop_first());
    }
}

/// A cut title has at most 36 characters.
proof fn lemma_short_title_len(title: Seq<char>)
    requires
        title_cuttable(title),
    ensures
        short_title(title).len() <= 36,
{
    let bytes = encode_utf8(title);
    lemma_encode_utf8_len(title);
    if bytes.len() > 36 {
        vstd::utf8::encode_utf8_valid_utf8(title);
        vstd::utf8::valid_utf8_split(bytes, 36);
        let head = bytes.subrange(0, 36);
        vstd::utf8::decode_utf8_encode_utf8(head);
        lemma_encode_utf8_len(decode_utf8(head));
    }
}

/// On every line of a listing below position 100, the title column is 36
/// characters wide and the track's time starts at character 41.
pub proof fn law_queue_times_line_up(number: nat, title: Seq<char>, secs: nat)
    requires
        number < 100,
        title_cuttable(title),
    ensures
        queue_line(number, title, secs).subrange(0, 41) == pad_left(decimal(number), 2) + ") "@
            + pad_right(short_title(title), 36) + " "@,
        queue_line(number, title, secs).subrange(41, queue_line(number, title, secs).len() as int)
            == timestamp_text(secs) + "\n"@,
{
    reveal_strlit(") ");
    reveal_strlit(" ");
    lemma_decimal_len(number);
    if number >= 10 {
        lemma_decimal_len(number / 10);
        assert(number / 10 < 10);
        assert(decimal(number).len() == 2);
    }
    lemma_short_title_len(title);
    let head = pad_left(decimal(number), 2) + ") "@ + pad_right(short_title(title), 36) + " "@;
    assert(head.len() == 41);
    let line = queue_line(number, title, secs);
    assert(line =~= head + (timestamp_text(secs) + "\n"@));
    assert(line.subrange(0, 41) =~= head);
    assert(line.subrange(41, line.len() as int) =~= timestamp_text(secs) + "\n"@);
}

/// The buttons under the listing.
#[derive(Debug, Clone, Copy, PartialEq, Eq, Structural)]
pub enum PageButton {
    First,
    Back,
    Next,
    Last,
}

/// The custom id of each button (also its label).
pub const BUTTON_FIRST: &'static str = "first";
pub const BUTTON_BACK: &'static str = "back";
pub const BUTTON_NEXT: &'static str = "next";
pub const BUTTON_LAST: &'static str = "last";

/// The button whose custom id is `id`, if any.
pub open spec fn button_of(id: Seq<char>) -> Option<PageButton> {
    if id == BUTTON_FIRST@ {
        Some(PageButton::First)
    } else if id == BUTTON_BACK@ {
        Some(PageButton::Back)
    } else if id == BUTTON_NEXT@ {
        Some(PageButton::Next)
    } else if id == BUTTON_LAST@ {
        Some(PageButton::Last)
    } else {
        None
    }
}

/// The button that a component interaction with custom id `id` pressed;
/// nothing for any other id, which the listing ignores.
pub fn page_button(id: &str) -> (r: Option<PageButton>)
    ensures
        r == button_of(id@),
{
    if str_eq(id, BUTTON_FIRST) {
        Some(PageButton::First)
    } else if str_eq(id, BUTTON_BACK) {
        Some(PageButton::Back)
    } else if str_eq(id, BUTTON_NEXT) {
        Some(PageButton::Next)
    } else if str_eq(id, BUTTON_LAST) {
        Some(PageButton::Last)
    } else {
        None
    }
}

/// The number of pages of a queue of `len` tracks: the tracks after the
/// first, ten to a page, rounded up, and at least one page. As the listing
/// starts at the first track, the last track of a queue of 11, 21, 31, ...
/// tracks falls on no page.
pub open spec fn pages_of(len: nat) -> nat {
    if len <= 1 {
        1
    } else {
        (len + 8) / 10
    }
}

/// The number of pages the listing of a queue of `len` tracks has.
pub fn page_count(len: usize) -> (r: usize)
    ensures
        r == pages_of(len as nat),
{
    if len <= 1 {
        1
    } else {
        (len - 2) / PAGE_SIZE + 1
    }
}

/// The page shown after `button` is pressed on `page` of `pages`.
pub open spec fn page_after(page: nat, pages: nat, button: PageButton) -> nat {
    let last = (pages - 1) as nat;
    match button {
        PageButton::First => 0,
        PageButton::Back => if page == 0 {
            0
        } else if (page - 1) as nat <= last {
            (page - 1) as nat
        } else {
            last
        },
        PageButton::Next => if page + 1 <= last {
            page + 1
        } else {
            last
        },
        PageButton::Last => last,
    }
}

/// Moves the listing from `page` to the page that `button` leads to.
pub fn next_page(page: usize, pages: usize, button: PageButton) -> (r: usize)
    requires
        pages >= 1,
        page < usize::MAX,
    ensures
        r == page_after(page as nat, pages as nat, button),
{
    let last = pages - 1;
    match button {
        PageButton::First => 0,
        PageButton::Back => {
            let back = page.saturating_sub(1);
            if back <= last {
                back
            } else {
                last
            }
        },
        PageButton::Next => {
            if page + 1 <= last {
                page + 1
            } else {
                last
            }
        },
        PageButton::Last => last,
    }
}

/// One step of the listing's browsing: the page shown after a component
/// interaction with custom id `id` on `page` of `pages`; nothing when the id
/// is none of the four buttons, which the listing passes over.
pub fn on_listing_button(page: usize, pages: usize, id: &str) -> (r: Option<usize>)
    requires
        pages >= 1,
        page < usize::MAX,
    ensures
        r == (match button_of(id@) {
            None => None,
            Some(b) => Some(page_after(page as nat, pages as nat, b) as usize),
        }),
{
    match page_button(id) {
        None => None,
        Some(b) => Some(next_page(page, pages, b)),
    }
}

/// Whatever button is pressed, the listing stays on one of its pages.
pub proof fn law_page_stays_in_listing(page: nat, pages: nat, button: PageButton)
    requires
        pages >= 1,
    ensures
        page_after(page, pages, button) < pages,
{
}

/// On a queue that is not empty, every page the buttons can reach lists at
/// least one track.
pub proof fn law_reachable_pages_list_tracks(len: nat, page: nat)
    requires
        len >= 1,
        page < pages_of(len),
    ensures
        page_start(page) < page_end(len, page),
{
}

/// Every track of the queue but the last is listed on a page the buttons
/// can reach: the track at index `i` stands on page `i / 10`.
pub proof fn law_tracks_before_last_are_listed(len: nat, i: nat)
    requires
        i + 1 < len,
    ensures
        i / 10 < pages_of(len),
        page_start(i / 10) <= i < page_end(len, i / 10),
{
}


/// Each button moves by the step its name says: back one page (staying on
/// the first), forward one page (staying on the last), to the first page, or
/// to the last page.
pub proof fn law_buttons_step_one_page(page: nat, pages: nat)
    requires
        page < pages,
    ensures
        page >= 1 ==> page_after(page, pages, PageButton::Back) == page - 1,
        page == 0 ==> page_after(page, pages, PageButton::Back) == 0,
        page + 1 < pages ==> page_after(page, pages, PageButton::Next) == page + 1,
        page + 1 == pages ==> page_after(page, pages, PageButton::Next) == page,
        page_after(page, pages, PageButton::First) == 0,
        page_after(page, pages, PageButton::Last) == pages - 1,
{
}


/// The page count is the number of pages of ten that hold the tracks after
/// the first: ten times one page fewer falls short of them, ten times the
/// count reaches them; a queue of at most one track has one page.
pub proof fn law_page_count_covers_upcoming_tracks(len: nat)
    ensures
        len <= 1 ==> pages_of(len) == 1,
        len >= 2 ==> 10 * (pages_of(len) - 1) < len - 1 <= 10 * pages_of(len),
{
}

/// The line of the track at index `k` begins with its queue position
/// `k + 1`, right-aligned on two characters, then `)`.
pub proof fn law_queue_line_numbers_track(tracks: Seq<QueueEntry>, k: int)
    requires
        0 <= k,
        k + 1 < 100,
    ensures
        ({
            let line = entry_line(tracks, k);
            let width: int = if k + 1 < 10 { 1 } else { 2 };
            &&& line.len() >= 3
            &&& forall|i: int| 0 <= i < 2 - width ==> line[i] == ' '
            &&& all_digits(line.subrange(2 - width, 2))
            &&& digits_value(line.subrange(2 - width, 2)) == k + 1
            &&& line[2] == ')'
        }),
{
    let n = (k + 1) as nat;
    reveal_strlit(") ");
    lemma_decimal_len(n);
    lemma_decimal_digits(n);
    if n >= 10 {
        lemma_decimal_len(n / 10);
    }
    let line = entry_line(tracks, k);
    let num = pad_left(decimal(n), 2);
    assert(num.len() == 2);
    let rest = ") "@ + pad_right(short_title(tracks[k].title->Some_0@), 36) + " "@
        + timestamp_text(tracks[k].duration_secs->Some_0 as nat) + "\n"@;
    assert(line =~= num + rest);
    let width: int = if k + 1 < 10 { 1 } else { 2 };
    assert(line.subrange(2 - width, 2) =~= decimal(n));
    assert(line[2] == rest[0]);
}

} // verus!
