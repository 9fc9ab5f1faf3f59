//! The records from which a front end draws the course of a computation.
//!
//! A visual element names the value it stands for; where that value lies on
//! the canvas is for the front end to work out.

use vstd::prelude::*;

verus! {

/// A colour by hue (degrees, below 360), saturation and lightness (percent).
#[derive(Debug, Clone, Copy, PartialEq, Eq)]
pub struct HslColour {
    pub hue: u16,
    pub saturation: u8,
    pub lightness: u8,
}

/// How an element is drawn. Intensity and size are in percent of full.
#[derive(Debug, Clone, Copy, PartialEq, Eq)]
pub struct VisualAttributes {
    pub colour: Option<HslColour>,
    pub intensity: Option<u8>,
    pub size: Option<u8>,
}

/// One drawn value, with the time (seconds since the epoch) of its drawing.
#[derive(Debug, Clone, Copy, PartialEq, Eq)]
pub struct VisualElement {
    pub value: u64,
    pub attributes: VisualAttributes,
    pub timestamp: u64,
}

/// The elements of one frame.
#[derive(Debug, Clone, PartialEq, Eq)]
pub struct VisualisationFrame {
    pub elements: Vec<VisualElement>,
    pub frame_index: u32,
}

/// The mathematical content of a `VisualisationFrame`.
pub ghost struct VisualisationFrameView {
    pub elements: Seq<VisualElement>,
    pub frame_index: u32,
}

impl View for VisualisationFrame {
    type V = VisualisationFrameView;

    open spec fn view(&self) -> VisualisationFrameView {
        VisualisationFrameView { elements: self.elements@, frame_index: self.frame_index }
    }
}

/// The contents of a sequence of frames.
pub open spec fn frames_view(frames: Seq<VisualisationFrame>) -> Seq<VisualisationFrameView> {
    frames.map_values(|frame: VisualisationFrame| frame@)
}

/// What a computation reports of itself to the visualiser.
/// `progress_percentage` is a whole number of percent.
#[derive(Debug, Clone, Copy, PartialEq, Eq)]
pub struct ComputationProgress {
    pub current_value: u64,
    pub items_processed: u32,
    pub progress_percentage: u8,
    pub memory_usage: u64,
    pub elapsed_time_ms: u64,
}

} // verus!
