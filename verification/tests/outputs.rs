use polyglot::devices::{
    check_input, choose_output, input_format, list_devices, output_format, OutputChoice, SampleKind,
};
use polyglot::sidecar::{locate_sidecar, sidecar_args, sidecar_places, Folder, Place, SIDECAR_NAME};

fn names(list: &[Option<&str>]) -> Vec<Option<String>> {
    list.iter().map(|name| name.map(|text| text.to_string())).collect()
}

#[test]
fn nameless_devices_are_left_out() {
    let listed = list_devices(
        &Some("Speakers".to_string()),
        names(&[Some("BlackHole"), None, Some("Speakers")]),
    );
    let listed: Vec<(&str, bool)> =
        listed.iter().map(|device| (device.name.as_str(), device.is_default)).collect();
    assert_eq!(listed, vec![("BlackHole", false), ("Speakers", true)]);
}

#[test]
fn without_a_default_none_is_marked() {
    let listed = list_devices(&None, names(&[Some("A"), Some("B")]));
    assert!(listed.iter().all(|device| !device.is_default));
    assert_eq!(listed.len(), 2);
}

#[test]
fn first_device_of_the_name_is_chosen() {
    let all = names(&[None, Some("A"), Some("B"), Some("B")]);
    assert_eq!(choose_output(&Some("B".to_string()), true, &all), Ok(OutputChoice::Listed(2)));
}

#[test]
fn missing_device_is_named() {
    assert_eq!(
        choose_output(&Some("C".to_string()), true, &names(&[Some("A"), None])),
        Err("Output device 'C' not found".to_string())
    );
}

#[test]
fn default_device_is_used_unasked() {
    assert_eq!(choose_output(&None, true, &[]), Ok(OutputChoice::Default));
    assert_eq!(choose_output(&None, false, &[]), Err("No default output device".to_string()));
}

#[test]
fn microphone_is_asked_for() {
    assert_eq!(check_input(true), Ok(()));
    assert_eq!(check_input(false), Err("No default input device".to_string()));
}

#[test]
fn listed_devices_can_be_chosen() {
    let all = names(&[Some("A"), None, Some("B"), Some("A")]);
    for device in list_devices(&None, all.clone()) {
        match choose_output(&Some(device.name.clone()), false, &all) {
            Ok(OutputChoice::Listed(i)) => assert_eq!(all[i], Some(device.name)),
            other => panic!("{other:?}"),
        }
    }
}

#[test]
fn sidecar_is_looked_for_in_order() {
    assert_eq!(sidecar_places(true), vec![
        Place::BelowWorkingDir(Folder::Binaries),
        Place::BelowWorkingDir(Folder::AppBinaries),
        Place::BelowParent(Folder::TauriBinaries),
    ]);
    assert_eq!(sidecar_places(false)[2], Place::Nowhere);
    assert_eq!(Folder::Binaries.path(), "binaries");
    assert_eq!(Folder::AppBinaries.path(), "polyglot-app/src-tauri/binaries");
    assert_eq!(Folder::TauriBinaries.path(), "src-tauri/binaries");
    assert_eq!(SIDECAR_NAME, "audiotee-aarch64-apple-darwin");
}

#[test]
fn first_sidecar_that_exists_is_taken() {
    assert_eq!(locate_sidecar(&[false, true, true], "[]"), Ok(1));
    assert_eq!(
        locate_sidecar(&[false, false], "[\"a\", \"b\"]"),
        Err("audiotee binary not found. Expected one of: [\"a\", \"b\"]".to_string())
    );
}

#[test]
fn own_process_is_left_out_of_the_capture() {
    assert_eq!(
        sidecar_args(4711),
        vec!["--exclude-processes", "4711", "--sample-rate", "24000", "--mute"]
    );
    assert_eq!(sidecar_args(0)[1], "0");
    assert_eq!(sidecar_args(u32::MAX)[1], "4294967295");
}

#[test]
fn sample_formats_are_told_apart() {
    assert_eq!(input_format("F32"), Ok(SampleKind::F32));
    assert_eq!(input_format("I16"), Ok(SampleKind::I16));
    assert_eq!(input_format("I32"), Ok(SampleKind::I32));
    assert_eq!(input_format("U8"), Err("Unsupported input sample format: U8".to_string()));
    assert_eq!(output_format("F32"), Ok(SampleKind::F32));
    assert_eq!(output_format("I16"), Err("Unsupported output sample format: I16".to_string()));
}
