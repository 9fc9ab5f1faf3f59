//! Turns a computation's progress into a frame to draw.

use vstd::prelude::*;
use crate::visualisation::{
    ComputationProgress,
    HslColour,
    VisualAttributes,
    VisualElement,
    VisualisationFrame,
    VisualisationFrameView,
};

verus! {

/// The saturation of every element, in percent.
pub const SATURATION: u8 = 70;

/// The lightness of every element, in percent.
pub const LIGHTNESS: u8 = 50;

/// Full intensity and unit size, in percent.
pub const FULL: u8 = 100;

/// The digit character of a number below 10.
pub open spec fn digit_char(digit: nat) -> char {
    seq!['0', '1', '2', '3', '4', '5', '6', '7', '8', '9'][digit as int]
}

/// A number in decimal, without leading zeros.
pub open spec fn decimal_text(number: nat) -> Seq<char>
    decreases number,
{
    if number < 10 {
        seq![digit_char(number)]
    } else {
        decimal_text(number / 10).push(digit_char(number % 10))
    }
}

/// A colour as a style sheet writes it: `hsl(H, S%, L%)`.
pub open spec fn hsl_text(colour: HslColour) -> Seq<char> {
    seq!['h', 's', 'l', '('] + decimal_text(colour.hue as nat) + seq![',', ' '] + decimal_text(
        colour.saturation as nat,
    ) + seq!['%', ',', ' '] + decimal_text(colour.lightness as nat) + seq!['%', ')']
}

/// `format!` with three unsigned integers in `{}` places: each is written in
/// decimal without sign or leading zeros, and the text between the places is
/// kept as it stands.
#[verifier::external_body]
fn format_hsl(colour: &HslColour) -> (text: String)
    ensures
        text@ == hsl_text(*colour),
{
    format!("hsl({}, {}%, {}%)", colour.hue, colour.saturation, colour.lightness)
}

/// The colour as a style sheet writes it.
pub fn hsl_string(colour: &HslColour) -> (text: String)
    ensures
        text@ == hsl_text(*colour),
{
    format_hsl(colour)
}

/// The colour of a value: its hue goes round the circle with the value.
pub open spec fn colour_of(value: u64) -> HslColour {
    HslColour { hue: (value % 360) as u16, saturation: SATURATION, lightness: LIGHTNESS }
}

/// The one element that stands for `progress`, drawn at `timestamp`.
pub open spec fn element_of(progress: ComputationProgress, timestamp: u64) -> VisualElement {
    VisualElement {
        value: progress.current_value,
        attributes: VisualAttributes {
            colour: Some(colour_of(progress.current_value)),
            intensity: Some(FULL),
            size: Some(FULL),
        },
        timestamp,
    }
}

/// The frame that shows `progress`: its one element, numbered by the items
/// processed.
pub open spec fn frame_of(progress: ComputationProgress, timestamp: u64) -> VisualisationFrameView {
    VisualisationFrameView {
        elements: seq![element_of(progress, timestamp)],
        frame_index: progress.items_processed,
    }
}

/// Generates the frames of a computation.
#[derive(Debug, Clone, Copy, PartialEq, Eq)]
pub struct ComputationVisualiser;

impl ComputationVisualiser {
    /// The frame that shows `progress` at the time `timestamp` (seconds
    /// since the epoch): the present value at full intensity.
    pub fn generate_frame(&self, progress: &ComputationProgress, timestamp: u64) -> (frame:
        VisualisationFrame)
        ensures
            frame@ == frame_of(*progress, timestamp),
    {
        let mut recent_points: Vec<VisualElement> = Vec::new();
        recent_points.push(
            VisualElement {
                value: progress.current_value,
                attributes: VisualAttributes {
                    colour: Some(self.colour(progress)),
                    intensity: Some(FULL),
                    size: Some(FULL),
                },
                timestamp,
            },
        );
        assert(recent_points@ =~= seq![element_of(*progress, timestamp)]);
        VisualisationFrame { elements: recent_points, frame_index: progress.items_processed }
    }

    /// The colour in which the present value of `progress` is drawn.
    pub fn colour(&self, progress: &ComputationProgress) -> (colour: HslColour)
        ensures
            colour == colour_of(progress.current_value),
            colour.hue < 360,
    {
        HslColour {
            hue: (progress.current_value % 360) as u16,
            saturation: SATURATION,
            lightness: LIGHTNESS,
        }
    }

    /// The colour in which the present value of `progress` is drawn, as a
    /// style sheet writes it.
    pub fn calculate_color(&self, progress: &ComputationProgress) -> (text: String)
        ensures
            text@ == hsl_text(colour_of(progress.current_value)),
    {
        let colour = self.colour(progress);
        hsl_string(&colour)
    }
}

} // verus!
