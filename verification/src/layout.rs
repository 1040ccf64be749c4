//! What the chat client's screens show, computed apart from drawing them:
//! the header, which messages fit in the message pane, where the input
//! cursor goes, and the masked login fields.

use vstd::prelude::*;
use crate::client::{App, FocusedSection};
use crate::text::{append, decimal, decimal_string, push_char, text};
use vstd::string::*;
use vstd::utf8::encode_utf8;

verus! {

/// How many participants the header counts: the list, plus the user when
/// the list does not name them.
pub open spec fn online_count(participants: Seq<Seq<char>>, username: Seq<char>) -> nat {
    if participants.contains(username) {
        participants.len()
    } else {
        participants.len() + 1
    }
}

/// The state shown in the header: how many are online once logged in.
pub open spec fn state_text(app: &App) -> Seq<char> {
    if app.authenticated {
        decimal(online_count(crate::text::views(app.participants@), app.username@)) + " online"@
    } else {
        "Not authenticated"@
    }
}

/// The header's information lines, under its `SECURE CHAT` title: the
/// server, the room, the user and the state.
pub open spec fn header_text(app: &App) -> Seq<Seq<char>> {
    seq![
        "Server: "@ + app.server_address@,
        "Room: "@ + app.room@,
        "User: "@ + app.username@,
        "State: "@ + state_text(app),
    ]
}

/// How many are online: the participants, plus the user when the list does
/// not name them.
fn count_online(app: &App) -> (n: u64)
    requires
        app.participants@.len() < u64::MAX,
    ensures
        n == online_count(crate::text::views(app.participants@), app.username@),
{
    let ghost names = crate::text::views(app.participants@);
    let mut found = false;
    let mut i: usize = 0;
    while i < app.participants.len()
        invariant
            i <= app.participants@.len(),
            names == crate::text::views(app.participants@),
            found == names.take(i as int).contains(app.username@),
        decreases app.participants@.len() - i,
    {
        let same = app.participants[i] == app.username;
        proof {
            assert(names[i as int] == app.participants@[i as int]@);
            crate::registry::take_push_contains(names, i as int, app.username@);
        }
        if same {
            found = true;
        }
        i = i + 1;
    }
    assert(names.take(app.participants@.len() as int) == names);
    if found { app.participants.len() as u64 } else { app.participants.len() as u64 + 1 }
}

/// The header's lines: server, room, user, and the number online (or that
/// the client is not logged in).
pub fn header_lines(app: &App) -> (lines: Vec<String>)
    requires
        app.participants@.len() < u64::MAX,
    ensures
        crate::text::views(lines@) == header_text(app),
{
    let mut server = text("Server: ");
    append(&mut server, app.server_address.as_str());
    let mut room = text("Room: ");
    append(&mut room, app.room.as_str());
    let mut user = text("User: ");
    append(&mut user, app.username.as_str());
    let mut state = text("State: ");
    if app.authenticated {
        let digits = decimal_string(count_online(app));
        append(&mut state, digits.as_str());
        append(&mut state, " online");
        assert(state@ == "State: "@ + state_text(app));
    } else {
        append(&mut state, "Not authenticated");
        assert(state@ == "State: "@ + state_text(app));
    }
    let mut lines: Vec<String> = Vec::new();
    lines.push(server);
    lines.push(room);
    lines.push(user);
    lines.push(state);
    assert(crate::text::views(lines@) =~= header_text(app));
    lines
}

/// The title of the message pane: the selected message's position among
/// them (when there are any) with the scrolling keys, and whether the pane
/// has the focus.
pub open spec fn messages_title_text(app: &App) -> Seq<char> {
    " MESSAGES"@ + (if app.messages@.len() > 0 {
        " ["@ + decimal((app.message_scroll + 1) as nat) + "/"@ + decimal(app.messages@.len())
            + "] \u{2191}\u{2193} scroll | PgUp/PgDn | END to bottom "@
    } else {
        Seq::empty()
    }) + (if app.focus == FocusedSection::MessageList { " [FOCUSED] "@ } else { " "@ })
}

/// The title of the message pane.
pub fn messages_title(app: &App) -> (title: String)
    requires
        app.message_scroll < u64::MAX,
        app.messages@.len() <= u64::MAX,
    ensures
        title@ == messages_title_text(app),
{
    let mut title = text(" MESSAGES");
    if app.messages.len() > 0 {
        append(&mut title, " [");
        let position = decimal_string(app.message_scroll as u64 + 1);
        append(&mut title, position.as_str());
        append(&mut title, "/");
        let count = decimal_string(app.messages.len() as u64);
        append(&mut title, count.as_str());
        append(&mut title, "] \u{2191}\u{2193} scroll | PgUp/PgDn | END to bottom ");
    }
    match app.focus {
        FocusedSection::MessageList => append(&mut title, " [FOCUSED] "),
        FocusedSection::Input => append(&mut title, " "),
    }
    title
}

/// The title of the input pane, marked when it has the focus.
pub fn input_title(focus: FocusedSection) -> (title: &'static str)
    ensures
        title@ == (if focus == FocusedSection::Input { " MESSAGE >> [FOCUSED] "@ } else { " MESSAGE >> "@ }),
{
    match focus {
        FocusedSection::Input => " MESSAGE >> [FOCUSED] ",
        FocusedSection::MessageList => " MESSAGE >> ",
    }
}

/// How many lines a text of `text_len` bytes takes when wrapped at `width`
/// columns: at least one.
pub open spec fn line_count(text_len: nat, width: nat) -> nat {
    if width == 0 {
        1
    } else if text_len == 0 {
        1
    } else {
        ((text_len + width - 1) / width as int) as nat
    }
}

/// Law: a wrapped text takes just enough lines: they hold it, one line
/// fewer would not, and even an empty text takes one line.
pub proof fn wrapping_takes_just_enough_lines(text_len: nat, width: nat)
    requires
        width > 0,
    ensures
        line_count(text_len, width) >= 1,
        line_count(text_len, width) * width >= text_len,
        text_len > 0 ==> (line_count(text_len, width) - 1) * width < text_len,
{
    if text_len > 0 {
        let q = (text_len + width - 1) / width as int;
        let r = (text_len + width - 1) % width as int;
        vstd::arithmetic::div_mod::lemma_fundamental_div_mod(text_len + width - 1, width as int);
        assert(q * width + r == text_len + width - 1);
        assert(0 <= r < width);
        assert(q >= 1) by (nonlinear_arith)
            requires
                q * width + r == text_len + width - 1,
                0 <= r < width,
                text_len > 0,
        ;
        assert(q * width >= text_len) by (nonlinear_arith)
            requires
                q * width + r == text_len + width - 1,
                r < width,
        ;
        assert((q - 1) * width < text_len) by (nonlinear_arith)
            requires
                q * width + r == text_len + width - 1,
                0 <= r,
        ;
    }
}

/// How many lines a text of `text_len` bytes takes when wrapped at `width`
/// columns.
pub fn wrapped_line_count(text_len: usize, width: usize) -> (lines: usize)
    ensures
        lines == line_count(text_len as nat, width as nat),
{
    if width == 0 || text_len == 0 {
        1
    } else {
        let full = text_len / width;
        assert(text_len % width != 0 ==> full < usize::MAX) by (nonlinear_arith)
            requires
                width > 0,
                full == text_len / width,
        ;
        let lines = if text_len % width == 0 { full } else { full + 1 };
        assert(lines == (text_len + width - 1) / width as int) by (nonlinear_arith)
            requires
                width > 0,
                full == text_len / width,
                lines == if text_len % width == 0 { full as int } else { full + 1 },
        ;
        lines
    }
}

/// The number of lines of each message in a pane `width` columns wide.
pub fn message_heights(messages: &Vec<String>, width: usize) -> (heights: Vec<usize>)
    ensures
        heights@.len() == messages@.len(),
        forall|i: int| 0 <= i < messages@.len() ==> #[trigger] heights@[i] == line_count(
            encode_utf8(messages@[i]@).len() as usize as nat,
            width as nat,
        ),
{
    let mut heights: Vec<usize> = Vec::new();
    let mut i: usize = 0;
    while i < messages.len()
        invariant
            i <= messages@.len(),
            heights@.len() == i,
            forall|k: int| 0 <= k < i ==> #[trigger] heights@[k] == line_count(
                encode_utf8(messages@[k]@).len() as usize as nat,
                width as nat,
            ),
        decreases messages@.len() - i,
    {
        let len = messages[i].as_str().len();
        heights.push(wrapped_line_count(len, width));
        i = i + 1;
    }
    heights
}

/// Going forward from message `i` with `budget` lines left: the first
/// message that no longer fits, and the lines then left.
pub open spec fn fill_forward(h: Seq<usize>, i: int, budget: int) -> (int, int)
    decreases h.len() - i,
{
    if i < 0 || i >= h.len() {
        (i, budget)
    } else if h[i] <= budget {
        fill_forward(h, i + 1, budget - h[i])
    } else {
        (i, budget)
    }
}

/// Going backward from just before message `i` with `budget` lines left:
/// the first message of the run that fits.
pub open spec fn fill_backward(h: Seq<usize>, i: int, budget: int) -> int
    decreases i,
{
    if i <= 0 || i > h.len() {
        i
    } else if h[i - 1] <= budget {
        fill_backward(h, i - 1, budget - h[i - 1])
    } else {
        i
    }
}

/// The lines that messages `a` up to (not including) `b` take together.
pub open spec fn span(h: Seq<usize>, a: int, b: int) -> int
    decreases b - a,
{
    if a >= b {
        0
    } else {
        span(h, a, b - 1) + h[b - 1]
    }
}

/// A span grows by its first message.
proof fn span_prepend(h: Seq<usize>, a: int, b: int)
    requires
        a < b,
    ensures
        span(h, a, b) == h[a] + span(h, a + 1, b),
    decreases b - a,
{
    reveal_with_fuel(span, 2);
    if a + 1 < b {
        span_prepend(h, a, b - 1);
    }
}

/// Going forward stops at the first message that does not fit: the
/// messages passed fit in the budget, and one more would not.
proof fn fill_forward_fits(h: Seq<usize>, i: int, budget: int)
    requires
        0 <= i <= h.len(),
        budget >= 0,
    ensures
        ({
            let (j, left) = fill_forward(h, i, budget);
            &&& i <= j <= h.len()
            &&& left == budget - span(h, i, j)
            &&& left >= 0
            &&& j < h.len() ==> span(h, i, j + 1) > budget
        }),
    decreases h.len() - i,
{
    reveal_with_fuel(span, 2);
    if i < h.len() && h[i] <= budget {
        fill_forward_fits(h, i + 1, budget - h[i]);
        let (j, left) = fill_forward(h, i + 1, budget - h[i]);
        span_prepend(h, i, j);
        if j < h.len() {
            span_prepend(h, i, j + 1);
        }
    }
}

/// Going backward stops at the first message that does not fit: the
/// messages taken fit in the budget, and one more would not.
proof fn fill_backward_fits(h: Seq<usize>, i: int, budget: int)
    requires
        0 <= i <= h.len(),
        budget >= 0,
    ensures
        ({
            let lo = fill_backward(h, i, budget);
            &&& 0 <= lo <= i
            &&& span(h, lo, i) <= budget
            &&& lo > 0 ==> span(h, lo - 1, i) > budget
        }),
    decreases i,
{
    reveal_with_fuel(span, 2);
    if i > 0 && h[i - 1] <= budget {
        fill_backward_fits(h, i - 1, budget - h[i - 1]);
    }
}

/// The shown window, said directly: from the anchor forward as far as the
/// messages fit, one more would not; then backward in the lines left as far
/// as they fit, one more would not.
pub open spec fn widest_window(h: Seq<usize>, scroll: nat, visible_height: nat, lo: int, hi: int) -> bool {
    let start = anchor(h.len(), scroll) as int;
    &&& 0 <= lo <= start
    &&& start <= hi <= h.len()
    &&& span(h, lo, start) + span(h, start, hi) <= visible_height
    &&& hi < h.len() ==> span(h, start, hi + 1) > visible_height
    &&& lo > 0 ==> span(h, lo - 1, start) + span(h, start, hi) > visible_height
}

/// Law: the window of shown messages is the widest one around the
/// selection: it fits in the pane, and taking one more message after it,
/// or before it, would not.
pub proof fn shown_window_is_widest(h: Seq<usize>, scroll: nat, visible_height: nat)
    ensures
        ({
            let (lo, hi) = shown_range(h, scroll, visible_height);
            widest_window(h, scroll, visible_height, lo, hi)
        }),
{
    let start = anchor(h.len(), scroll) as int;
    fill_forward_fits(h, start, visible_height as int);
    let (hi, left) = fill_forward(h, start, visible_height as int);
    fill_backward_fits(h, start, left);
}

/// The message the view is anchored on: the selected one, or the last.
pub open spec fn anchor(count: nat, scroll: nat) -> nat {
    let last = if count > 0 { (count - 1) as nat } else { 0 };
    if scroll < last {
        scroll
    } else {
        last
    }
}

/// The indices of the messages shown: from the anchor forward as long as
/// they fit, then backward before the anchor with the lines left.
pub open spec fn shown_range(h: Seq<usize>, scroll: nat, visible_height: nat) -> (int, int) {
    let start = anchor(h.len(), scroll) as int;
    let (hi, left) = fill_forward(h, start, visible_height as int);
    (fill_backward(h, start, left), hi)
}

/// The indices, in order, of the messages that fit in a pane of
/// `visible_height` lines, given each message's height and the selection.
pub fn visible_messages(heights: &Vec<usize>, scroll: usize, visible_height: usize) -> (shown: Vec<usize>)
    ensures
        ({
            let (lo, hi) = shown_range(heights@, scroll as nat, visible_height as nat);
            &&& 0 <= lo <= hi <= heights@.len()
            &&& shown@.len() == hi - lo
            &&& forall|k: int| 0 <= k < shown@.len() ==> #[trigger] shown@[k] == lo + k
            &&& widest_window(heights@, scroll as nat, visible_height as nat, lo, hi)
        }),
{
    proof {
        shown_window_is_widest(heights@, scroll as nat, visible_height as nat);
    }
    let n = heights.len();
    let last = if n > 0 { n - 1 } else { 0 };
    let start = if scroll < last { scroll } else { last };
    let ghost h = heights@;
    let mut left = visible_height;
    let mut hi = start;
    while hi < n && heights[hi] <= left
        invariant
            h == heights@,
            n == h.len(),
            start <= hi <= n,
            start <= n,
            fill_forward(h, start as int, visible_height as int) == fill_forward(h, hi as int, left as int),
        decreases n - hi,
    {
        assert(fill_forward(h, hi as int, left as int) == fill_forward(h, hi + 1, left - h[hi as int]));
        left = left - heights[hi];
        hi = hi + 1;
    }
    assert(fill_forward(h, hi as int, left as int) == (hi as int, left as int));
    let ghost left0 = left;
    let mut lo = start;
    while lo > 0 && heights[lo - 1] <= left
        invariant
            h == heights@,
            n == h.len(),
            lo <= start <= hi <= n,
            fill_backward(h, start as int, left0 as int) == fill_backward(h, lo as int, left as int),
        decreases lo,
    {
        assert(fill_backward(h, lo as int, left as int) == fill_backward(h, lo - 1, left - h[lo - 1]));
        left = left - heights[lo - 1];
        lo = lo - 1;
    }
    assert(fill_backward(h, lo as int, left as int) == lo as int);
    assert(shown_range(h, scroll as nat, visible_height as nat) == (lo as int, hi as int));
    let mut shown: Vec<usize> = Vec::new();
    let mut k = lo;
    while k < hi
        invariant
            lo <= k <= hi,
            shown@.len() == k - lo,
            forall|j: int| 0 <= j < shown@.len() ==> #[trigger] shown@[j] == lo + j,
        decreases hi - k,
    {
        shown.push(k);
        k = k + 1;
    }
    shown
}

/// The rows that the shown messages take in a pane of `limit` rows, from
/// the `k`-th shown message on, starting at row `top`: each message's
/// index, first row and number of rows (cut at the bottom of the pane).
pub open spec fn message_rows_from(
    h: Seq<usize>,
    shown: Seq<usize>,
    k: int,
    top: int,
    limit: int,
) -> Seq<(usize, usize, usize)>
    decreases shown.len() - k,
{
    if k < 0 || k >= shown.len() || top >= limit {
        Seq::empty()
    } else {
        let i = shown[k];
        let rows = if h[i as int] < limit - top { h[i as int] as int } else { limit - top };
        seq![(i, top as usize, rows as usize)] + message_rows_from(h, shown, k + 1, top + h[i as int], limit)
    }
}

/// The lines that the shown messages `a` up to (not including) `b` take
/// together.
pub open spec fn stacked(h: Seq<usize>, shown: Seq<usize>, a: int, b: int) -> int
    decreases b - a,
{
    if a >= b {
        0
    } else {
        stacked(h, shown, a, b - 1) + h[shown[b - 1] as int]
    }
}

/// A stack grows by its first message.
proof fn stacked_prepend(h: Seq<usize>, shown: Seq<usize>, a: int, b: int)
    requires
        a < b,
    ensures
        stacked(h, shown, a, b) == h[shown[a] as int] + stacked(h, shown, a + 1, b),
    decreases b - a,
{
    reveal_with_fuel(stacked, 2);
    if a + 1 < b {
        stacked_prepend(h, shown, a, b - 1);
    }
}

/// The row entry of the `i`-th shown message placed at row `start`: its
/// index, its first row and its number of rows, cut at the bottom.
pub open spec fn row_entry(h: Seq<usize>, shown: Seq<usize>, i: int, start: int, limit: int) -> (usize, usize, usize) {
    let height = h[shown[i] as int] as int;
    (shown[i], start as usize, (if height < limit - start { height } else { limit - start }) as usize)
}

/// `entry` is the row entry of the `i`-th shown message placed at row
/// `start`, inside the pane.
pub open spec fn placed(entry: (usize, usize, usize), h: Seq<usize>, shown: Seq<usize>, i: int, start: int, limit: int) -> bool {
    start < limit && entry == row_entry(h, shown, i, start, limit)
}

/// The layout, said directly: the `j`-th row entry (from the `k`-th shown
/// message on, starting at row `top`) is the `(k + j)`-th shown message,
/// placed below the ones before it and cut at the bottom; entries go on
/// while the next message still starts inside the pane.
pub open spec fn stacked_rows(
    h: Seq<usize>,
    shown: Seq<usize>,
    k: int,
    top: int,
    limit: int,
    rows: Seq<(usize, usize, usize)>,
) -> bool {
    &&& k + rows.len() <= shown.len()
    &&& forall|j: int| 0 <= j && j < rows.len() ==> placed(
        #[trigger] rows[j],
        h,
        shown,
        k + j,
        top + stacked(h, shown, k, k + j),
        limit,
    )
    &&& (k + rows.len() == shown.len() || top + stacked(h, shown, k, k + rows.len()) >= limit)
}

/// The `j`-th row entry is the `(k + j)`-th shown message, placed below the
/// ones before it.
proof fn row_at(h: Seq<usize>, shown: Seq<usize>, k: int, top: int, limit: int, j: int)
    requires
        0 <= k <= shown.len(),
        0 <= j < message_rows_from(h, shown, k, top, limit).len(),
    ensures
        top + stacked(h, shown, k, k + j) < limit,
        placed(message_rows_from(h, shown, k, top, limit)[j], h, shown, k + j, top + stacked(h, shown, k, k + j), limit),
    decreases j,
{
    let i = shown[k];
    let top1 = top + h[i as int];
    let r1 = message_rows_from(h, shown, k + 1, top1, limit);
    assert(k < shown.len() && top < limit);
    if j == 0 {
        assert(stacked(h, shown, k, k) == 0);
    } else {
        row_at(h, shown, k + 1, top1, limit, j - 1);
        assert(k + 1 + (j - 1) == k + j);
        stacked_prepend(h, shown, k, k + j);
    }
}

/// The row entries go on while the next message starts inside the pane.
proof fn rows_stop_at_bottom(h: Seq<usize>, shown: Seq<usize>, k: int, top: int, limit: int)
    requires
        0 <= k <= shown.len(),
    ensures
        ({
            let r = message_rows_from(h, shown, k, top, limit);
            &&& k + r.len() <= shown.len()
            &&& (k + r.len() == shown.len() || top + stacked(h, shown, k, k + r.len()) >= limit)
        }),
    decreases shown.len() - k,
{
    if k < shown.len() && top < limit {
        let top1 = top + h[shown[k] as int];
        rows_stop_at_bottom(h, shown, k + 1, top1, limit);
        let r = message_rows_from(h, shown, k, top, limit);
        let r1 = message_rows_from(h, shown, k + 1, top1, limit);
        assert(r.len() == r1.len() + 1);
        if k + r.len() < shown.len() {
            stacked_prepend(h, shown, k, k + r.len());
            assert(k + 1 + r1.len() == k + r.len());
        }
    } else {
        assert(stacked(h, shown, k, k) == 0);
    }
}

/// Law: the recursive layout is the direct one.
pub proof fn message_rows_are_stacked(
    h: Seq<usize>,
    shown: Seq<usize>,
    k: int,
    top: int,
    limit: int,
    rows: Seq<(usize, usize, usize)>,
)
    requires
        0 <= k <= shown.len(),
        rows == message_rows_from(h, shown, k, top, limit),
    ensures
        stacked_rows(h, shown, k, top, limit, rows),
{
    rows_stop_at_bottom(h, shown, k, top, limit);
    assert forall|j: int| 0 <= j && j < rows.len() implies placed(
        #[trigger] rows[j],
        h,
        shown,
        k + j,
        top + stacked(h, shown, k, k + j),
        limit,
    ) by {
        row_at(h, shown, k, top, limit, j);
    }
}

/// Lays the shown messages out in a pane of `limit` rows: each message's
/// index, first row and number of rows, top to bottom, until the pane is
/// full.
pub fn message_rows(heights: &Vec<usize>, shown: &Vec<usize>, limit: usize) -> (rows: Vec<(usize, usize, usize)>)
    requires
        forall|k: int| 0 <= k < shown@.len() ==> #[trigger] shown@[k] < heights@.len(),
    ensures
        rows@ == message_rows_from(heights@, shown@, 0, 0, limit as int),
        stacked_rows(heights@, shown@, 0, 0, limit as int, rows@),
{
    proof {
        message_rows_are_stacked(heights@, shown@, 0, 0, limit as int, message_rows_from(heights@, shown@, 0, 0, limit as int));
    }
    let mut rows: Vec<(usize, usize, usize)> = Vec::new();
    let mut top: usize = 0;
    let mut k: usize = 0;
    while k < shown.len() && top < limit
        invariant
            forall|j: int| 0 <= j < shown@.len() ==> #[trigger] shown@[j] < heights@.len(),
            k <= shown@.len(),
            top <= limit,
            message_rows_from(heights@, shown@, 0, 0, limit as int)
                == rows@ + message_rows_from(heights@, shown@, k as int, top as int, limit as int),
        decreases shown@.len() - k,
    {
        let i = shown[k];
        let h = heights[i];
        let room = limit - top;
        let height = if h < room { h } else { room };
        let ghost old_rows = rows@;
        let ghost tail = message_rows_from(heights@, shown@, k + 1, top + h, limit as int);
        assert(message_rows_from(heights@, shown@, k as int, top as int, limit as int)
            == seq![(i, top, height)] + tail);
        rows.push((i, top, height));
        if h < room {
            top = top + h;
        } else {
            assert(tail == Seq::<(usize, usize, usize)>::empty());
            assert(message_rows_from(heights@, shown@, k + 1, limit as int, limit as int)
                == Seq::<(usize, usize, usize)>::empty());
            top = limit;
        }
        k = k + 1;
        assert(old_rows + (seq![(i, (if h < room { top - h } else { top - room }) as usize, height)] + tail)
            =~= rows@ + tail);
    }
    assert(message_rows_from(heights@, shown@, k as int, top as int, limit as int) == Seq::<(usize, usize, usize)>::empty());
    assert(rows@ + Seq::<(usize, usize, usize)>::empty() =~= rows@);
    rows
}

/// Where the input cursor goes in an input pane of `width` by `height`
/// cells (borders included): it scrolls the input so that the cursor's
/// wrapped line is visible, and returns the cursor's column and row inside
/// the pane, when the pane has room and the input is focused.
pub open spec fn cursor_placement(
    pos: nat,
    width: nat,
    height: nat,
    scroll: nat,
) -> (nat, Option<(nat, nat)>) {
    let line_width = (width - 2) as nat;
    let line = pos / line_width;
    let col = pos % line_width;
    let visible_lines = (height - 2) as nat;
    let new_scroll = if line >= visible_lines {
        (line - visible_lines + 1) as nat
    } else if line < scroll {
        line
    } else {
        scroll
    };
    let row = if line >= new_scroll { (line - new_scroll) as nat } else { 0 };
    (new_scroll, if 1 + row < height - 1 { Some((1 + col, 1 + row)) } else { None })
}

/// Law: the input cursor lands on its character: with lines of
/// `width - 2` characters, its column is the cursor's place in its wrapped
/// line and its row is that line counted from the first line shown; the
/// cursor's line is always shown, on the last row once it lies below the
/// first screenful, and otherwise the view moves only to reach it.
pub proof fn input_cursor_lands_on_its_character(pos: nat, width: nat, height: nat, scroll: nat)
    requires
        width > 2,
        height > 2,
    ensures
        ({
            let (new_scroll, cursor) = cursor_placement(pos, width, height, scroll);
            let line = pos / ((width - 2) as nat);
            &&& new_scroll <= line < new_scroll + (height - 2)
            &&& (line >= height - 2 ==> new_scroll == line - (height - 2) + 1)
            &&& (line < height - 2 && scroll <= line ==> new_scroll == scroll)
            &&& (line < height - 2 && line < scroll ==> new_scroll == line)
            &&& cursor == Some(((1 + pos % ((width - 2) as nat)) as nat, (1 + line - new_scroll) as nat))
        }),
{
}

impl App {
    /// Scrolls the input pane of `width` by `height` cells so that the
    /// cursor is visible, and returns the cursor's column and row inside the
    /// pane; nothing changes, and there is no cursor, when the pane is too
    /// small or the input does not have the focus.
    pub fn place_input_cursor(&mut self, width: u16, height: u16) -> (cursor: Option<(u16, u16)>)
        requires
            width > 2 ==> old(self).input_cursor_pos / ((width - 2) as usize) < 65536,
        ensures
            if width > 2 && height > 2 && old(self).focus == FocusedSection::Input {
                let (s, c) = cursor_placement(
                    old(self).input_cursor_pos as nat,
                    width as nat,
                    height as nat,
                    old(self).input_scroll as nat,
                );
                &&& final(self).input_scroll == s
                &&& match c {
                    Some((x, y)) => cursor == Some((x as u16, y as u16)),
                    None => cursor is None,
                }
            } else {
                final(self).input_scroll == old(self).input_scroll && cursor is None
            },
            final(self).username == old(self).username,
            final(self).messages == old(self).messages,
            final(self).input == old(self).input,
            final(self).input_cursor_pos == old(self).input_cursor_pos,
            final(self).message_scroll == old(self).message_scroll,
            final(self).participants == old(self).participants,
            final(self).authenticated == old(self).authenticated,
            final(self).auto_scroll == old(self).auto_scroll,
            final(self).focus == old(self).focus,
            final(self).server_address == old(self).server_address,
            final(self).room == old(self).room,
            final(self).connected == old(self).connected,
    {
        if !(width > 2 && height > 2) {
            return None;
        }
        match self.focus {
            FocusedSection::MessageList => return None,
            FocusedSection::Input => {},
        }
        let line_width = (width - 2) as usize;
        let cursor_line = self.input_cursor_pos / line_width;
        let cursor_col = self.input_cursor_pos % line_width;
        let visible_lines = (height - 2) as usize;
        if cursor_line >= visible_lines {
            self.input_scroll = (cursor_line - visible_lines + 1) as u16;
        } else if cursor_line < self.input_scroll as usize {
            self.input_scroll = cursor_line as u16;
        }
        let row = if cursor_line >= self.input_scroll as usize {
            cursor_line - self.input_scroll as usize
        } else {
            0
        };
        if 1 + row < (height - 1) as usize {
            Some(((1 + cursor_col) as u16, (1 + row) as u16))
        } else {
            None
        }
    }
}

/// `n` stars.
pub open spec fn mask_of(n: nat) -> Seq<char> {
    Seq::new(n, |i: int| '*')
}

/// A field's text as shown: one `*` per character.
pub fn masked(s: &str) -> (shown: String)
    ensures
        shown@ == mask_of(s@.len()),
{
    let n = s.unicode_len();
    let mut shown = String::new();
    let mut i: usize = 0;
    while i < n
        invariant
            n == s@.len(),
            i <= n,
            shown@.len() == i,
            forall|k: int| 0 <= k < i ==> #[trigger] shown@[k] == '*',
        decreases n - i,
    {
        push_char(&mut shown, '*');
        i = i + 1;
    }
    assert(shown@ =~= mask_of(s@.len()));
    shown
}

/// The cursor's column in a field `width` cells wide whose text has
/// `bytes` bytes: after the text, but inside the border.
pub open spec fn cursor_column(bytes: nat, width: nat) -> nat {
    1 + if bytes < width - 2 { bytes } else { (width - 2) as nat }
}

/// Law: the login screen shows a secret field only through its length: a
/// secret is shown as one star per character, so two secrets with as many
/// characters look the same; the cursor stands just after the text (counted
/// in bytes) but never on the border, so two with as many bytes put it in
/// the same column.
pub proof fn secrets_show_only_their_length(a: Seq<char>, b: Seq<char>, a_bytes: nat, b_bytes: nat, width: nat)
    requires
        a.len() == b.len(),
        a_bytes == b_bytes,
        width >= 2,
    ensures
        mask_of(a.len()) == mask_of(b.len()),
        mask_of(a.len()).len() == a.len(),
        forall|i: int| 0 <= i < a.len() ==> #[trigger] mask_of(a.len())[i] == '*',
        cursor_column(a_bytes, width) == cursor_column(b_bytes, width),
        1 <= cursor_column(a_bytes, width) <= width - 1,
        a_bytes <= width - 2 ==> cursor_column(a_bytes, width) == 1 + a_bytes,
{
}

/// The column of the cursor in a login field `width` cells wide (borders
/// included): after the text, counted in bytes, but inside the border.
pub fn field_cursor_offset(field: &str, width: u16) -> (offset: u16)
    requires
        width >= 2,
    ensures
        offset == cursor_column(field.spec_bytes().len(), width as nat),
{
    let len = field.as_bytes().len();
    let room = (width - 2) as usize;
    let shown = if len < room { len } else { room };
    (1 + shown) as u16
}

} // verus!
