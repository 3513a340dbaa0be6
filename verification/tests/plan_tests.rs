use svgico::error::PipelineError;
use svgico::plan::{is_vector_extension, plan_outputs, progress_line, removal_for, EntryKind, Removal};

#[test]
fn svg_extension_in_any_case_is_taken() {
    for ext in ["svg", "SVG", "Svg", "sVg", "svG", "SVg", "sVG", "SvG"] {
        assert!(is_vector_extension(ext), "{}", ext);
    }
}

#[test]
fn other_extensions_are_ignored() {
    for ext in ["", "png", "ico", "svgz", "sv", "xsvg", "s\u{00e9}g", "\u{0161}vg"] {
        assert!(!is_vector_extension(ext), "{}", ext);
    }
}

#[test]
fn outputs_are_named_after_the_stem() {
    let outputs = plan_outputs("a", Some("svg")).unwrap();
    assert_eq!(outputs.raster_name, "a.png");
    assert_eq!(outputs.icon_name, "a.ico");
    let outputs = plan_outputs("my.icon", Some("SVG")).unwrap();
    assert_eq!(outputs.raster_name, "my.icon.png");
    assert_eq!(outputs.icon_name, "my.icon.ico");
}

#[test]
fn files_that_are_no_vector_documents_give_no_outputs() {
    assert!(plan_outputs("readme", None).is_none());
    assert!(plan_outputs("photo", Some("png")).is_none());
    assert!(plan_outputs("archive", Some("svgz")).is_none());
}

#[test]
fn progress_line_names_the_file() {
    assert_eq!(progress_line("./data/SVG/a.svg"), "Processing: ./data/SVG/a.svg");
}

#[test]
fn clearing_removes_every_entry() {
    assert_eq!(removal_for(EntryKind::File), Removal::RemoveFile);
    assert_eq!(removal_for(EntryKind::Directory), Removal::RemoveTree);
    assert_eq!(removal_for(EntryKind::Other), Removal::RemoveFile);
}

#[test]
fn every_error_has_its_message() {
    assert_eq!(PipelineError::Io.message(), "input or output failed");
    assert_eq!(PipelineError::Parse.message(), "not a well-formed vector document");
    assert_eq!(PipelineError::InvalidGeometry.message(), "intrinsic size is not positive");
    assert_eq!(PipelineError::Render.message(), "failed to render the document");
    assert_eq!(PipelineError::Encode.message(), "failed to encode the icon image");
    assert_eq!(PipelineError::PixelConversion.message(), "failed to convert the pixel buffer");
}
