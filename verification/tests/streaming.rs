use task_runner::task_executor::TaskExecutor;
use task_runner::task_state::{TaskProgress, TaskState};
use task_runner::task_stream::{StreamEvent, TaskStateStream, STREAM_INTERVAL_MS};
use task_runner::visualisation::{
    ComputationProgress, HslColour, VisualAttributes, VisualElement, VisualisationFrame,
};
use task_runner::visualiser::ComputationVisualiser;

fn progress(value: u64, items: u32) -> ComputationProgress {
    ComputationProgress {
        current_value: value,
        items_processed: items,
        progress_percentage: 10,
        memory_usage: 64,
        elapsed_time_ms: 5,
    }
}

#[test]
fn the_stream_ticks_every_hundred_milliseconds() {
    assert_eq!(STREAM_INTERVAL_MS, 100);
    assert_eq!(TaskStateStream::new().interval_ms(), 100);
}

#[test]
fn an_encoded_snapshot_is_sent_as_it_is() {
    let stream = TaskStateStream::new();
    let event = stream.event(Some("{\"1\":\"x\"}".to_string()));
    assert_eq!(event, StreamEvent::Snapshot("{\"1\":\"x\"}".to_string()));
    assert_eq!(event.data(), "{\"1\":\"x\"}");
}

#[test]
fn a_failed_encoding_yields_the_fallback() {
    let stream = TaskStateStream::new();
    let event = stream.event(None);
    assert_eq!(event, StreamEvent::Fallback("Error serializing tasks".to_string()));
    assert_eq!(event.data(), "Error serializing tasks");
    // The stream goes on after a fallback.
    assert_eq!(stream.event(Some("{}".to_string())), StreamEvent::Snapshot("{}".to_string()));
}

#[test]
fn each_poll_sees_the_registry_as_it_stands() {
    let mut executor = TaskExecutor::new();
    let one = TaskStateStream::new();
    let other = TaskStateStream::new();
    assert!(one.snapshot(&executor).is_empty());
    executor.register_task(1, TaskProgress::zeroed()).unwrap();
    let first = one.snapshot(&executor);
    executor.store_failure(1, "boom".to_string()).unwrap();
    let second = other.snapshot(&executor);
    assert_eq!(first.get(&1), Some(&TaskState::Running(TaskProgress::zeroed())));
    assert_eq!(second.get(&1), Some(&TaskState::Failed("boom".to_string())));
    assert_eq!(one.snapshot(&executor), second);
}

#[test]
fn a_frame_holds_the_present_value_at_full_intensity() {
    let frame = ComputationVisualiser.generate_frame(&progress(725, 12), 1_700_000_000);
    assert_eq!(
        frame,
        VisualisationFrame {
            elements: vec![VisualElement {
                value: 725,
                attributes: VisualAttributes {
                    colour: Some(HslColour { hue: 5, saturation: 70, lightness: 50 }),
                    intensity: Some(100),
                    size: Some(100),
                },
                timestamp: 1_700_000_000,
            }],
            frame_index: 12,
        }
    );
}

#[test]
fn the_hue_goes_round_with_the_value() {
    let visualiser = ComputationVisualiser;
    assert_eq!(visualiser.colour(&progress(0, 0)).hue, 0);
    assert_eq!(visualiser.colour(&progress(359, 0)).hue, 359);
    assert_eq!(visualiser.colour(&progress(360, 0)).hue, 0);
    assert_eq!(visualiser.colour(&progress(u64::MAX, 0)).hue, 15);
}

#[test]
fn colours_are_written_as_hsl() {
    let visualiser = ComputationVisualiser;
    assert_eq!(visualiser.calculate_color(&progress(0, 0)), "hsl(0, 70%, 50%)");
    assert_eq!(visualiser.calculate_color(&progress(7, 0)), "hsl(7, 70%, 50%)");
    assert_eq!(visualiser.calculate_color(&progress(725, 0)), "hsl(5, 70%, 50%)");
    assert_eq!(visualiser.calculate_color(&progress(359, 0)), "hsl(359, 70%, 50%)");
    assert_eq!(visualiser.calculate_color(&progress(100, 0)), "hsl(100, 70%, 50%)");
}
