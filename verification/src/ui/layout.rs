//! Pure layout and reveal decisions of the main panels, kept free of any
//! drawing so each breakpoint and stage is exact.

use vstd::prelude::*;
use crate::app::{Focus, Section};
use crate::config::HomeDensity;
use crate::text::{chars_of, decimal, decimal_string, push_chars, push_str, string_from};

verus! {

/// Panel width from which the cover sits beside the metadata.
pub const WIDE_MIN_WIDTH: u16 = 74;
/// Panel height from which the cover sits beside the metadata.
pub const WIDE_MIN_HEIGHT: u16 = 16;
/// Panel height from which the cover can be stacked above the metadata.
pub const STACKED_MIN_HEIGHT: u16 = 18;
/// Terminal cells are about twice as tall as wide.
pub const CELL_ASPECT: u16 = 2;
/// Time between two rows arriving in the staggered reveal.
pub const STAGGER_STEP_MS: u128 = 14;
/// Rows past this one appear together.
pub const STAGGER_MAX_ROWS: usize = 8;

/// Arrangement of the now-playing screen.
#[derive(Debug, Clone, Copy, PartialEq, Eq, Structural)]
pub enum Layout2 {
    /// Cover beside the metadata.
    Wide,
    /// Cover above the metadata.
    Stacked,
    /// Metadata only.
    Bare,
}

/// The arrangement that fits a panel of `width` x `height` cells.
pub fn layout_for(width: u16, height: u16, has_artwork: bool) -> (r: Layout2)
    ensures
        r == (if !has_artwork {
            Layout2::Bare
        } else if width >= WIDE_MIN_WIDTH && height >= WIDE_MIN_HEIGHT {
            Layout2::Wide
        } else if height >= STACKED_MIN_HEIGHT {
            Layout2::Stacked
        } else {
            Layout2::Bare
        }),
{
    if !has_artwork {
        return Layout2::Bare;
    }
    if width >= WIDE_MIN_WIDTH && height >= WIDE_MIN_HEIGHT {
        return Layout2::Wide;
    }
    if height >= STACKED_MIN_HEIGHT {
        return Layout2::Stacked;
    }
    Layout2::Bare
}

/// A rectangle of terminal cells.
#[derive(Debug, Clone, Copy, PartialEq, Eq, Structural)]
pub struct CellRect {
    pub x: u16,
    pub y: u16,
    pub width: u16,
    pub height: u16,
}

/// The largest square (in cells) centred in `area`; zero-sized when none
/// fits.
pub fn square_in(area: CellRect) -> (r: CellRect)
    requires
        area.x + area.width <= u16::MAX,
        area.y + area.height <= u16::MAX,
    ensures
        ({
            let side = if area.width / CELL_ASPECT < area.height { area.width / CELL_ASPECT } else { area.height };
            if side == 0 {
                r == CellRect { x: area.x, y: area.y, width: 0, height: 0 }
            } else {
                r == CellRect {
                    x: (area.x + (area.width - side * CELL_ASPECT) / 2) as u16,
                    y: (area.y + (area.height - side) / 2) as u16,
                    width: (side * CELL_ASPECT) as u16,
                    height: side as u16,
                }
            }
        }),
{
    let by_width = area.width / CELL_ASPECT;
    let side_rows = if by_width < area.height { by_width } else { area.height };
    if side_rows == 0 {
        return CellRect { x: area.x, y: area.y, width: 0, height: 0 };
    }
    let side_cols = side_rows * CELL_ASPECT;
    CellRect {
        x: area.x + (area.width - side_cols) / 2,
        y: area.y + (area.height - side_rows) / 2,
        width: side_cols,
        height: side_rows,
    }
}

/// Height in rows of one Home card for `density`, frame included.
pub fn card_height(density: HomeDensity) -> (r: u16)
    ensures
        r == (match density {
            HomeDensity::Comfortable => 5u16,
            HomeDensity::Compact => 4u16,
        }),
{
    match density {
        HomeDensity::Comfortable => 5,
        HomeDensity::Compact => 4,
    }
}

/// Height of one shelf: a header row plus one row of cards.
pub fn shelf_height(density: HomeDensity) -> (r: u16)
    ensures
        r == 1 + card_height_spec(density),
{
    1 + card_height(density)
}

/// Height in rows of one Home card for `density`.
pub open spec fn card_height_spec(density: HomeDensity) -> u16 {
    match density {
        HomeDensity::Comfortable => 5u16,
        HomeDensity::Compact => 4u16,
    }
}

/// Smallest horizontal offset (in cards) keeping `local_selected` inside a
/// `columns`-wide window; shelves without a selection start at 0.
pub fn horizontal_offset(local_selected: Option<usize>, card_count: usize, columns: usize) -> (r: usize)
    ensures
        r == (match local_selected {
            None => 0,
            Some(local) => if local < columns {
                0
            } else {
                let max_offset = if card_count > columns { card_count - columns } else { 0 };
                if local + 1 - columns < max_offset { local + 1 - columns } else { max_offset }
            },
        }),
        local_selected matches Some(local) ==> (columns > 0 && local < card_count ==> r <= local < r + columns),
{
    match local_selected {
        None => 0,
        Some(local) => {
            let max_offset = if card_count > columns { card_count - columns } else { 0 };
            if local < columns {
                0
            } else {
                let o = local - columns;
                if o < max_offset { o + 1 } else { max_offset }
            }
        },
    }
}

/// Narrowest Home area, in columns, that shows shelves as a grid of cards;
/// narrower areas show the cards as a flat list.
pub const GRID_MIN_WIDTH: u16 = 70;

/// Narrowest card column of the Home grid.
pub const CARD_WIDTH: u16 = 24;

/// How many card columns the Home grid has in an area `width` by `height`:
/// as many `CARD_WIDTH` columns as fit (at least one) in a grid, and one
/// for the flat list of a narrow area or an area with no room at all.
pub fn grid_columns(width: u16, height: u16) -> (r: usize)
    ensures
        r == if width < GRID_MIN_WIDTH || height == 0 {
            1
        } else {
            (width / CARD_WIDTH) as usize
        },
        r >= 1,
{
    if width < GRID_MIN_WIDTH || height == 0 {
        1
    } else {
        (width / CARD_WIDTH) as usize
    }
}

/// The shelves of the Home grid shown in `height` rows, as the range
/// `first..end`: whole shelves of `shelf_height(density)` rows (at least
/// one), scrolled just far enough that the selected shelf is in view and
/// never past the last shelf.
pub fn shelf_window(height: u16, density: HomeDensity, shelf_count: usize, selected_shelf: Option<usize>) -> (r: (usize, usize))
    ensures
        ({
            let fit = height as int / (1 + card_height_spec(density) as int);
            let visible = if fit < 1 { 1 } else { fit };
            let max_scroll = if shelf_count > visible { shelf_count - visible } else { 0 };
            let wanted = match selected_shelf {
                Some(sel) => if sel >= visible { sel - visible + 1 } else { 0 },
                None => 0,
            };
            let first = if wanted < max_scroll { wanted } else { max_scroll };
            &&& r.0 == first
            &&& r.1 == if first + visible < shelf_count { first + visible } else { shelf_count as int }
        }),
        r.0 <= r.1 <= shelf_count,
        selected_shelf matches Some(sel) ==> (sel < shelf_count ==> r.0 <= sel && sel < r.1),
{
    let fit = (height / shelf_height(density)) as usize;
    let visible = if fit < 1 { 1 } else { fit };
    let max_scroll = if shelf_count > visible { shelf_count - visible } else { 0 };
    let wanted = match selected_shelf {
        Some(sel) => if sel >= visible { sel - visible + 1 } else { 0 },
        None => 0,
    };
    let first = if wanted < max_scroll { wanted } else { max_scroll };
    let end = if shelf_count - first > visible { first + visible } else { shelf_count };
    (first, end)
}

/// The help scroll actually applied in a panel `area_height` rows tall
/// (two of them border) showing `line_count` lines: the requested scroll,
/// but never past the point where the last line reaches the bottom.
pub fn help_scroll(scroll: u16, line_count: u16, area_height: u16) -> (r: u16)
    ensures
        ({
            let visible = if area_height > 2 { area_height - 2 } else { 0 };
            let max_scroll = if line_count > visible { line_count - visible } else { 0 };
            r == if scroll < max_scroll { scroll as int } else { max_scroll }
        }),
{
    let visible = area_height.saturating_sub(2);
    let max_scroll = line_count.saturating_sub(visible);
    if scroll < max_scroll { scroll } else { max_scroll }
}

/// Stage of the selected card's reveal.
#[derive(Debug, Clone, Copy, PartialEq, Eq, Structural)]
pub enum RevealStage {
    /// Background only.
    Background,
    /// Background and accent title.
    Title,
    /// Everything, badge included.
    Full,
}

/// The reveal stage `elapsed_ms` after the selection moved; reduced motion
/// skips straight to the final stage.
pub fn reveal_stage(elapsed_ms: u128, reduced_motion: bool) -> (r: RevealStage)
    ensures
        r == (if reduced_motion {
            RevealStage::Full
        } else if elapsed_ms < 80 {
            RevealStage::Background
        } else if elapsed_ms < 160 {
            RevealStage::Title
        } else {
            RevealStage::Full
        }),
{
    if reduced_motion {
        return RevealStage::Full;
    }
    if elapsed_ms < 80 {
        RevealStage::Background
    } else if elapsed_ms < 160 {
        RevealStage::Title
    } else {
        RevealStage::Full
    }
}

/// How many rows have arrived `elapsed_ms` into a section's reveal; `None`
/// means every row is in place (never changed, reduced motion, or done).
pub fn stagger_rows(elapsed_ms: Option<u128>, reduced_motion: bool) -> (r: Option<usize>)
    ensures
        r == (if reduced_motion {
            None
        } else {
            match elapsed_ms {
                None => None,
                Some(e) => if e / STAGGER_STEP_MS < STAGGER_MAX_ROWS {
                    Some((e / STAGGER_STEP_MS) as usize)
                } else {
                    None
                },
            }
        }),
{
    if reduced_motion {
        return None;
    }
    match elapsed_ms {
        None => None,
        Some(e) => {
            let arrived = e / STAGGER_STEP_MS;
            if arrived < 8 {
                Some(arrived as usize)
            } else {
                None
            }
        },
    }
}

/// The characters std's Unicode uppercase mapping gives for `c`.
pub uninterp spec fn unicode_upper(c: char) -> Seq<char>;

/// Trusted: wraps `char::to_uppercase`, collected into a vector. std's
/// uppercase mapping is a function of the character alone; its result is
/// named rather than restated.
#[verifier::external_body]
fn to_uppercase_chars(c: char) -> (r: Vec<char>)
    ensures
        r@ == unicode_upper(c),
{
    c.to_uppercase().collect()
}

/// `value` with its first character in uppercase (empty stays empty).
pub fn title_case(value: &str) -> (r: String)
    ensures
        value@.len() == 0 ==> r@.len() == 0,
        value@.len() > 0 ==> r@ == unicode_upper(value@[0]) + value@.drop_first(),
{
    let cs = chars_of(value);
    let mut out = String::new();
    if cs.len() == 0 {
        return out;
    }
    let upper = to_uppercase_chars(cs[0]);
    push_chars(&mut out, &upper);
    let mut rest: Vec<char> = Vec::new();
    let mut i: usize = 1;
    while i < cs.len()
        invariant
            1 <= i <= cs.len(),
            rest@ == cs@.subrange(1, i as int),
        decreases cs.len() - i,
    {
        rest.push(cs[i]);
        i = i + 1;
    }
    push_chars(&mut out, &rest);
    assert(cs@.subrange(1, cs.len() as int) =~= cs@.drop_first());
    out
}

/// Terminal height from which the two playback rows are shown.
pub const MIN_FULL_HEIGHT: u16 = 9;

/// Which optional rows a wide frame of `height` rows keeps, shortest first
/// dropped: `(playback, status)`. The body takes the rest.
pub fn main_rows(height: u16) -> (r: (bool, bool))
    ensures
        r == (height >= MIN_FULL_HEIGHT, height >= 4),
{
    if height >= MIN_FULL_HEIGHT {
        (true, true)
    } else if height >= 4 {
        (false, true)
    } else {
        (false, false)
    }
}

/// Which optional rows a narrow frame of `height` rows keeps, shortest first
/// dropped: `(header, playback, status)`. The body takes the rest.
pub fn narrow_rows(height: u16) -> (r: (bool, bool, bool))
    ensures
        r == (height >= 2, height > MIN_FULL_HEIGHT, height >= 5),
{
    if height > MIN_FULL_HEIGHT {
        (true, true, true)
    } else if height >= 5 {
        (true, false, true)
    } else if height >= 2 {
        (true, false, false)
    } else {
        (false, false, false)
    }
}

/// The shortcut line for the input mode, the focus and the open section.
pub open spec fn spec_shortcuts(input_mode: bool, focus: Focus, section: Section) -> Seq<char> {
    if input_mode {
        "Enter search · Esc cancel"@
    } else if focus == Focus::Sidebar {
        "↑↓ section · Enter open · / search · q quit"@
    } else {
        match section {
            Section::Fila => "Enter play · d remove · J/K move · c clear · ? help"@,
            Section::Buscar => "Enter play · a queue · Space pause · / search · ? help"@,
            Section::Biblioteca => "g sign in · Enter open · / search · ? help · q quit"@,
            Section::Letra => "↑↓ scroll · / search · ? help · q quit"@,
            Section::Ajuda => "↑↓ scroll · / search · q quit"@,
            _ => "Enter open · / search · ? help · q quit"@,
        }
    }
}

/// Shortcuts that make sense for the current focus and section.
pub fn contextual_shortcuts(input_mode: bool, focus: Focus, section: Section) -> (r: &'static str)
    ensures
        r@ == spec_shortcuts(input_mode, focus, section),
{
    if input_mode {
        return "Enter search · Esc cancel";
    }
    if focus == Focus::Sidebar {
        return "↑↓ section · Enter open · / search · q quit";
    }
    match section {
        Section::Fila => "Enter play · d remove · J/K move · c clear · ? help",
        Section::Buscar => "Enter play · a queue · Space pause · / search · ? help",
        Section::Biblioteca => "g sign in · Enter open · / search · ? help · q quit",
        Section::Letra => "↑↓ scroll · / search · ? help · q quit",
        Section::Ajuda => "↑↓ scroll · / search · q quit",
        _ => "Enter open · / search · ? help · q quit",
    }
}

/// The salutation for an hour of the day (0 to 23).
pub open spec fn salutation(hour: u32) -> Seq<char> {
    if 5 <= hour <= 11 {
        "Good morning"@
    } else if 12 <= hour <= 17 {
        "Good afternoon"@
    } else {
        "Good evening"@
    }
}

/// The Home greeting: the salutation for `hour`, with the signed-in name
/// when there is one.
pub fn greeting(hour: u32, name: &Option<String>) -> (r: String)
    ensures
        r@ == " "@ + salutation(hour) + match name {
            Some(n) => ", "@ + n@,
            None => Seq::<char>::empty(),
        },
{
    let mut s = string_from(" ");
    if 5 <= hour && hour <= 11 {
        push_str(&mut s, "Good morning");
    } else if 12 <= hour && hour <= 17 {
        push_str(&mut s, "Good afternoon");
    } else {
        push_str(&mut s, "Good evening");
    }
    match name {
        Some(n) => {
            push_str(&mut s, ", ");
            push_str(&mut s, n.as_str());
        },
        None => {},
    }
    proof {
        match name {
            Some(n) => {},
            None => {
                assert(s@ =~= " "@ + salutation(hour) + Seq::<char>::empty());
            },
        }
    }
    s
}

/// Short English weekday names, Monday first.
pub open spec fn weekday_name(d: int) -> Seq<char> {
    if d == 0 { "Mon"@ } else if d == 1 { "Tue"@ } else if d == 2 { "Wed"@ } else if d == 3 { "Thu"@ }
    else if d == 4 { "Fri"@ } else if d == 5 { "Sat"@ } else { "Sun"@ }
}

/// Short English month names, January first.
pub open spec fn month_name(m: int) -> Seq<char> {
    if m == 0 { "Jan"@ } else if m == 1 { "Feb"@ } else if m == 2 { "Mar"@ } else if m == 3 { "Apr"@ }
    else if m == 4 { "May"@ } else if m == 5 { "Jun"@ } else if m == 6 { "Jul"@ } else if m == 7 { "Aug"@ }
    else if m == 8 { "Sep"@ } else if m == 9 { "Oct"@ } else if m == 10 { "Nov"@ } else { "Dec"@ }
}

fn weekday_str(d: u32) -> (r: &'static str)
    ensures
        r@ == weekday_name(d as int),
{
    if d == 0 { "Mon" } else if d == 1 { "Tue" } else if d == 2 { "Wed" } else if d == 3 { "Thu" }
    else if d == 4 { "Fri" } else if d == 5 { "Sat" } else { "Sun" }
}

fn month_str(m: u32) -> (r: &'static str)
    ensures
        r@ == month_name(m as int),
{
    if m == 0 { "Jan" } else if m == 1 { "Feb" } else if m == 2 { "Mar" } else if m == 3 { "Apr" }
    else if m == 4 { "May" } else if m == 5 { "Jun" } else if m == 6 { "Jul" } else if m == 7 { "Aug" }
    else if m == 8 { "Sep" } else if m == 9 { "Oct" } else if m == 10 { "Nov" } else { "Dec" }
}

/// The date shown beside the greeting, e.g. `Mon · Jan 5 `, from the
/// weekday counted from Monday, the month counted from January and the day.
pub fn date_label(weekday_from_monday: u32, month0: u32, day: u32) -> (r: String)
    requires
        weekday_from_monday < 7,
        month0 < 12,
    ensures
        r@ == weekday_name(weekday_from_monday as int) + " · "@ + month_name(month0 as int) + " "@
            + decimal(day as nat) + " "@,
{
    let mut s = string_from(weekday_str(weekday_from_monday));
    push_str(&mut s, " · ");
    push_str(&mut s, month_str(month0));
    push_str(&mut s, " ");
    let d = decimal_string(day as u64);
    push_chars(&mut s, &d);
    push_str(&mut s, " ");
    s
}

/// Two decimal digits of `n` (below 100), with a leading zero.
pub open spec fn two_digits(n: nat) -> Seq<char> {
    if n < 10 { "0"@ + decimal(n) } else { decimal(n) }
}

/// A duration in seconds as `m:ss`.
pub open spec fn spec_clock(secs: nat) -> Seq<char> {
    decimal(secs / 60) + ":"@ + two_digits(secs % 60)
}

/// `secs` as `m:ss` (minutes unbounded, seconds always two digits).
pub fn clock_label(secs: u64) -> (r: String)
    ensures
        r@ == spec_clock(secs as nat),
{
    let mut s = String::new();
    let m = decimal_string(secs / 60);
    push_chars(&mut s, &m);
    push_str(&mut s, ":");
    let rest = secs % 60;
    if rest < 10 {
        push_str(&mut s, "0");
    }
    let d = decimal_string(rest);
    push_chars(&mut s, &d);
    proof {
        assert(s@ =~= spec_clock(secs as nat));
    }
    s
}

/// The two times around the progress bar: the position (`-:--` with
/// nothing playing) and the duration (`-:--` when unknown).
pub fn time_labels(position_secs: u64, duration_secs: u64, has_track: bool) -> (r: (String, String))
    ensures
        r.0@ == (if has_track { spec_clock(position_secs as nat) } else { "-:--"@ }),
        r.1@ == (if duration_secs > 0 { spec_clock(duration_secs as nat) } else { "-:--"@ }),
{
    let left = if has_track { clock_label(position_secs) } else { string_from("-:--") };
    let right = if duration_secs > 0 { clock_label(duration_secs) } else { string_from("-:--") };
    (left, right)
}

/// `a - b`, or 0 when `b` is larger.
pub open spec fn sat_sub(a: int, b: int) -> int {
    if a > b { a - b } else { 0 }
}

/// A `width` x `height` box centred in `area` (saturating at its origin).
pub fn centered_rect(width: u16, height: u16, area: CellRect) -> (r: CellRect)
    ensures
        r.width == width,
        r.height == height,
        r.x == (if area.x + sat_sub(area.width as int, width as int) / 2 > u16::MAX { u16::MAX as int }
            else { area.x + sat_sub(area.width as int, width as int) / 2 }),
        r.y == (if area.y + sat_sub(area.height as int, height as int) / 2 > u16::MAX { u16::MAX as int }
            else { area.y + sat_sub(area.height as int, height as int) / 2 }),
{
    CellRect {
        x: area.x.saturating_add(area.width.saturating_sub(width) / 2),
        y: area.y.saturating_add(area.height.saturating_sub(height) / 2),
        width,
        height,
    }
}

/// The size of the account picker over a `width` x `height` frame listing
/// `accounts` accounts: at most 64 columns, eight rows more than the list,
/// two rows short of the frame; `None` when it would be too small to use.
pub fn picker_size(width: u16, height: u16, accounts: usize) -> (r: Option<(u16, u16)>)
    ensures
        ({
            let w = if sat_sub(width as int, 4) < 64 { sat_sub(width as int, 4) } else { 64 };
            let rows = if accounts > u16::MAX { u16::MAX as int } else { accounts as int };
            let tall = if rows + 8 > u16::MAX { u16::MAX as int } else { rows + 8 };
            let h = if tall < sat_sub(height as int, 2) { tall } else { sat_sub(height as int, 2) };
            if w < 20 || h < 6 { r is None } else { r == Some((w as u16, h as u16)) }
        }),
{
    let w = {
        let inner = width.saturating_sub(4);
        if inner < 64 { inner } else { 64 }
    };
    let rows: u16 = if accounts > 65535 { 65535 } else { accounts as u16 };
    let tall = rows.saturating_add(8);
    let room = height.saturating_sub(2);
    let h = if tall < room { tall } else { room };
    if w < 20 || h < 6 {
        None
    } else {
        Some((w, h))
    }
}

} // verus!
