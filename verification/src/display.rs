//! What the progress of a run looks like: its message and its colour.

use crate::app_data::{GenStatus, GenerationProgress, ProgressView};
use crate::text::{append_decimal, decimal};
use vstd::prelude::*;
use vstd::string::*;

verus! {

/// The message for a phase and a percentage: the outcome once the run has
/// ended, else the percentage in decimal with a percent sign.
pub open spec fn progression_message(progress: int, status: GenStatus) -> Seq<char> {
    match status {
        GenStatus::FAILED => "Failed to write to file!"@,
        GenStatus::SUCCESS => "Generation Complete!"@,
        _ => decimal(progress) + "%"@,
    }
}

/// The message to show for a phase and a percentage.
pub fn get_progression_message(progress: i32, status: &GenStatus) -> (message: String)
    ensures
        message@ == progression_message(progress as int, *status),
{
    match status {
        GenStatus::FAILED => "Failed to write to file!".to_owned(),
        GenStatus::SUCCESS => "Generation Complete!".to_owned(),
        _ => {
            let mut message = String::new();
            append_decimal(&mut message, progress);
            message.append("%");
            assert(message@ =~= decimal(progress as int) + "%"@);
            message
        },
    }
}

/// A colour by its red, green and blue parts and its opacity.
#[derive(Debug, Clone, Copy, PartialEq, Eq, Structural)]
pub struct Rgba {
    pub red: u8,
    pub green: u8,
    pub blue: u8,
    pub alpha: u8,
}

/// How green the progress is, from 0 to 255: fully after a success, not at
/// all after a failure or while idle, and while generating the completed
/// share of 255, rounded down. The completed share is one percent for having
/// started and 99 percent spread evenly over the queue.
pub open spec fn progress_green(progress: ProgressView) -> int {
    match progress.status {
        GenStatus::SUCCESS => 255,
        GenStatus::FAILED | GenStatus::IDLE => 0,
        GenStatus::GENERATING => {
            let scaled = 255 * (progress.share_denominator() + progress.gain_numerator()) / (100
                * progress.share_denominator());
            if scaled > 255 {
                255
            } else {
                scaled
            }
        },
    }
}

/// The colour of the progress: from red to green as the run advances,
/// opaque unless idle.
pub open spec fn progress_colour(progress: ProgressView) -> Rgba {
    Rgba {
        red: (255 - progress_green(progress)) as u8,
        green: progress_green(progress) as u8,
        blue: 0,
        alpha: if progress.status == GenStatus::IDLE {
            0
        } else {
            255
        },
    }
}

/// The colour in which to show the progress.
pub fn get_progress_colour(progress: &GenerationProgress) -> (colour: Rgba)
    ensures
        colour == progress_colour(progress@),
        colour.red + colour.green == 255,
{
    let status = progress.status();
    let alpha: u8 = match status {
        GenStatus::IDLE => 0,
        _ => 255,
    };
    let amount: u8 = match status {
        GenStatus::SUCCESS => 255,
        GenStatus::FAILED | GenStatus::IDLE => 0,
        GenStatus::GENERATING => {
            let total = progress.total();
            let denominator: u128 = if total == 0 {
                1
            } else {
                total as u128
            };
            let numerator: u128 = 255 * (denominator + 99 * (progress.completed() as u128));
            let scaled: u128 = numerator / (100 * denominator);
            if scaled > 255 {
                255
            } else {
                scaled as u8
            }
        },
    };
    Rgba { red: 255 - amount, green: amount, blue: 0, alpha }
}

} // verus!
