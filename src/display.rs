use vstd::prelude::*;

use crate::controls::PROGRESS_BAR_INSET;
use crate::state::MAX_VOLUME;
use crate::text::{
    decimal, push_char, push_decimal, push_repeated, push_two_digits, repeated, two_digits,
};

verus! {

/// The character the played part of the progress bar is drawn with.
pub const PROGRESS_BAR_CHARACTER: char = '━';

/// The progress bar's knob.
pub const PROGRESS_BAR_SLIDER_CHARACTER: char = '█';

/// Number of cells the volume gauge has at full volume.
pub const VOLUME_BLOCK_COUNT: u32 = 8;

/// A duration of `secs` seconds as `MM:SS`, or `H:MM:SS` from one hour on.
pub open spec fn duration_text(secs: nat) -> Seq<char> {
    let hours = if secs / 3600 > 0 { decimal(secs / 3600).push(':') } else { Seq::empty() };
    hours + two_digits((secs / 60) % 60) + seq![':'] + two_digits(secs % 60)
}

/// The progress bar's title: ` played / full `.
pub open spec fn progress_title(played: nat, full: nat) -> Seq<char> {
    seq![' '] + duration_text(played) + seq![' ', '/', ' '] + duration_text(full) + seq![' ']
}

/// Formats a duration in seconds as `MM:SS`, with the hours in front
/// (`H:MM:SS`) once it reaches an hour.
pub fn format_duration(duration: u64) -> (r: String)
    ensures
        r@ == duration_text(duration as nat),
{
    let mut result = String::new();
    let hours = duration / 3600;
    if hours > 0 {
        push_decimal(&mut result, hours);
        push_char(&mut result, ':');
    }
    push_two_digits(&mut result, (duration / 60) % 60);
    push_char(&mut result, ':');
    push_two_digits(&mut result, duration % 60);
    assert(result@ =~= duration_text(duration as nat));
    result
}

/// The progress bar's title for a track `played_duration` seconds into its
/// `full_duration`.
pub fn progress_bar_title(played_duration: u64, full_duration: u64) -> (r: String)
    ensures
        r@ == progress_title(played_duration as nat, full_duration as nat),
{
    let mut title = String::new();
    push_char(&mut title, ' ');
    let played = format_duration(played_duration);
    title.append(played.as_str());
    push_char(&mut title, ' ');
    push_char(&mut title, '/');
    push_char(&mut title, ' ');
    let full = format_duration(full_duration);
    title.append(full.as_str());
    push_char(&mut title, ' ');
    assert(title@ =~= progress_title(played_duration as nat, full_duration as nat));
    title
}

/// Cells of played bar in front of the knob, on a progress bar `width`
/// columns wide: the played fraction of the bar's length, rounded down,
/// less the knob's own cell. Elapsed time past the end counts as the end; an
/// unknown length (0) shows nothing played.
pub open spec fn gauge_length(width: u16, played: u64, total: u64) -> nat {
    let bar = if width > PROGRESS_BAR_INSET { (width - PROGRESS_BAR_INSET) as nat } else { 0 };
    let done = if played > total { total as nat } else { played as nat };
    if total == 0 {
        0
    } else {
        let filled = bar * done / (total as nat);
        if filled > 0 { (filled - 1) as nat } else { 0 }
    }
}

/// The progress bar's contents: the played part, then the knob.
pub fn progress_gauge(width: u16, played: u64, total: u64) -> (r: String)
    ensures
        r@ == repeated(PROGRESS_BAR_CHARACTER, gauge_length(width, played, total)).push(
            PROGRESS_BAR_SLIDER_CHARACTER,
        ),
{
    let bar = width.saturating_sub(PROGRESS_BAR_INSET);
    let done = if played > total { total } else { played };
    let mut filled: u64 = 0;
    if total > 0 {
        assert(bar as int * done as int <= u16::MAX as int * u64::MAX as int) by (nonlinear_arith)
            requires
                bar <= u16::MAX,
                done <= u64::MAX,
        ;
        let product: u128 = bar as u128 * done as u128;
        proof {
            let b = bar as int;
            let d = done as int;
            let t = total as int;
            assert(b * d <= b * t) by (nonlinear_arith)
                requires
                    0 <= b,
                    0 <= d <= t,
            ;
            assert((b * d) / t <= b) by (nonlinear_arith)
                requires
                    0 <= b,
                    0 <= d,
                    0 < t,
                    b * d <= b * t,
            ;
        }
        filled = (product / total as u128) as u64;
    }
    let cells = if filled > 0 { filled - 1 } else { 0 };
    let mut gauge = String::new();
    push_repeated(&mut gauge, PROGRESS_BAR_CHARACTER, cells as usize);
    push_char(&mut gauge, PROGRESS_BAR_SLIDER_CHARACTER);
    assert(gauge@ =~= repeated(PROGRESS_BAR_CHARACTER, gauge_length(width, played, total)).push(
        PROGRESS_BAR_SLIDER_CHARACTER,
    ));
    gauge
}

/// The cells of the volume gauge, from quietest to loudest.
pub open spec fn volume_blocks() -> Seq<char> {
    seq!['▁', '▂', '▃', '▄', '▅', '▆', '▇', '█']
}

/// How many gauge cells a volume of `percent` lights: its share of the
/// cells, rounded up (a volume above the maximum counts as the maximum).
pub open spec fn lit_blocks(percent: nat) -> nat {
    let v = if percent > MAX_VOLUME { MAX_VOLUME as nat } else { percent };
    ((v * VOLUME_BLOCK_COUNT + MAX_VOLUME - 1) / (MAX_VOLUME as int)) as nat
}

fn volume_block(i: u32) -> (r: char)
    requires
        i < 8,
    ensures
        r == volume_blocks()[i as int],
{
    match i {
        0 => '▁',
        1 => '▂',
        2 => '▃',
        3 => '▄',
        4 => '▅',
        5 => '▆',
        6 => '▇',
        _ => '█',
    }
}

/// The volume gauge for a volume of `percent`.
pub fn get_volume_string(percent: u32) -> (r: String)
    ensures
        r@ == volume_blocks().subrange(0, lit_blocks(percent as nat) as int),
{
    let v = if percent > MAX_VOLUME { MAX_VOLUME } else { percent };
    let count = (v * VOLUME_BLOCK_COUNT + MAX_VOLUME - 1) / MAX_VOLUME;
    assert(count <= 8);
    let mut gauge = String::new();
    let mut i: u32 = 0;
    while i < count
        invariant
            count <= 8,
            i <= count,
            gauge@ == volume_blocks().subrange(0, i as int),
        decreases count - i,
    {
        push_char(&mut gauge, volume_block(i));
        assert(volume_blocks().subrange(0, i + 1) == volume_blocks().subrange(0, i as int).push(
            volume_blocks()[i as int],
        ));
        i = i + 1;
    }
    gauge
}

/// The volume control's title: ` Vol N% `.
pub open spec fn volume_title(percent: nat) -> Seq<char> {
    seq![' ', 'V', 'o', 'l', ' '] + decimal(percent) + seq!['%', ' ']
}

/// The volume control's title for a volume of `percent`.
pub fn volume_label(percent: u32) -> (r: String)
    ensures
        r@ == volume_title(percent as nat),
{
    let mut label = String::new();
    push_char(&mut label, ' ');
    push_char(&mut label, 'V');
    push_char(&mut label, 'o');
    push_char(&mut label, 'l');
    push_char(&mut label, ' ');
    push_decimal(&mut label, percent as u64);
    push_char(&mut label, '%');
    push_char(&mut label, ' ');
    assert(label@ =~= volume_title(percent as nat));
    label
}

} // verus!
