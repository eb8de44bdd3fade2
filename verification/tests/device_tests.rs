use waycord::devices::{get_audio_sources, RegistryNode};
use waycord::error::PipelineError;
use waycord::recorder::{Command, Recorder};

fn node(id: u32, class: &str, name: Option<&str>, description: Option<&str>) -> RegistryNode {
    RegistryNode {
        id,
        media_class: String::from(class),
        name: name.map(String::from),
        description: description.map(String::from),
    }
}

#[test]
fn audio_sources_are_filtered_and_listed_in_order() {
    let nodes = vec![
        node(1, "Audio/Sink", Some("speakers"), Some("Built-in speakers")),
        node(2, "Audio/Source", Some("mic"), Some("USB microphone")),
        node(3, "Video/Source", Some("cam"), Some("Webcam")),
        node(4, "Audio/Source/Virtual", Some("loopback"), Some("Loopback source")),
    ];
    let sources = get_audio_sources(&nodes);
    assert_eq!(sources.len(), 2);
    assert_eq!(sources[0], (2, String::from("mic"), String::from("USB microphone")));
    assert_eq!(
        sources[1],
        (4, String::from("loopback"), String::from("Loopback source"))
    );
}

#[test]
fn audio_sources_get_placeholders_for_missing_properties() {
    let nodes = vec![node(9, "Audio/Source", None, None)];
    let sources = get_audio_sources(&nodes);
    assert_eq!(
        sources,
        vec![(9, String::from("Unknown"), String::from("No description"))]
    );
}

#[test]
fn no_audio_sources_yields_empty_listing() {
    let nodes = vec![
        node(1, "Audio/Sink", Some("speakers"), None),
        node(2, "Video/Source", Some("cam"), None),
    ];
    assert!(get_audio_sources(&nodes).is_empty());
}

#[test]
fn monitor_of_first_sink_is_found() {
    let recorder = Recorder::new();
    let nodes = vec![
        node(1, "Audio/Source", Some("mic"), None),
        node(2, "Audio/Sink", Some("alsa_output.pci"), None),
        node(3, "Stream/Output/Audio", Some("alsa_output.pci.monitor"), None),
    ];
    assert_eq!(recorder.find_audio_monitor_node(&nodes), Ok(3));
}

#[test]
fn sink_without_monitor_is_skipped_for_one_that_has_it() {
    let recorder = Recorder::new();
    let nodes = vec![
        node(1, "Audio/Sink", Some("hdmi_output"), None),
        node(2, "Audio/Sink", Some("usb_output"), None),
        node(3, "Stream/Output/Audio", Some("usb_output.monitor"), None),
    ];
    assert_eq!(recorder.find_audio_monitor_node(&nodes), Ok(3));
}

#[test]
fn missing_monitor_reports_not_found() {
    let recorder = Recorder::new();
    let nodes = vec![
        node(1, "Audio/Sink", Some("hdmi_output"), None),
        node(2, "Audio/Source", Some("mic"), None),
    ];
    assert_eq!(
        recorder.find_audio_monitor_node(&nodes),
        Err(PipelineError::NotFound)
    );
}

#[test]
fn empty_registry_reports_not_found() {
    let recorder = Recorder::new();
    assert_eq!(
        recorder.find_audio_monitor_node(&Vec::new()),
        Err(PipelineError::NotFound)
    );
}

#[test]
fn commands_carry_their_payload() {
    let start = Command::StartRecording(String::from("/tmp/capture.mkv"));
    let stop = Command::StopRecording;
    assert_eq!(start, Command::StartRecording(String::from("/tmp/capture.mkv")));
    assert_ne!(start, stop);
}
