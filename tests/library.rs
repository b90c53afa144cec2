use raytracer::image::Image;
use raytracer::parameters::{DebugMode, Parameters};
use raytracer::setup::Setup;
use raytracer::trace::{next_action, TraceAction, TraceEvent};
use raytracer::writer::{Error, Writer};

#[test]
fn image_new_fills_every_pixel() {
    let image = Image::new(4, 3, 7u8);
    assert_eq!(image.get_width(), 4);
    assert_eq!(image.get_height(), 3);
    for y in 0..3 {
        for x in 0..4 {
            assert_eq!(image.get(x, y), 7);
        }
    }
}

#[test]
fn image_set_changes_one_pixel_only() {
    let mut image = Image::new(4, 3, 0u32);
    image.set(2, 1, 9);
    for y in 0..3 {
        for x in 0..4 {
            let expected = if x == 2 && y == 1 { 9 } else { 0 };
            assert_eq!(image.get(x, y), expected);
        }
    }
}

#[test]
fn image_empty() {
    let image = Image::new(0, 0, 1u8);
    assert_eq!(image.get_width(), 0);
    assert_eq!(image.get_height(), 0);
}

#[test]
fn writer_missing_input() {
    let writer: Writer<(), u8> = Writer::new(()).output("out/render.png".to_string());
    assert!(matches!(writer.target(), Err(Error::MissingInput)));
}

#[test]
fn writer_missing_output() {
    let image = Image::new(2, 2, 0u8);
    let writer = Writer::new(()).input(&image);
    assert!(matches!(writer.target(), Err(Error::MissingOutput)));
}

#[test]
fn writer_complete() {
    let image = Image::new(2, 2, 5u8);
    let writer = Writer::new(()).output("out/render.png".to_string()).input(&image);
    let (found, path) = writer.target().unwrap();
    assert_eq!(found.get(1, 1), 5);
    assert_eq!(path, "out/render.png");
}

#[test]
fn setup_new_has_default_parameters() {
    let setup = Setup::new(3u8);
    assert_eq!(setup.scene, 3);
    assert_eq!(setup.parameters, Parameters::default());
    assert!(setup.parameters.is_valid());
}

#[test]
fn parameters_validation() {
    let zero_width = Parameters { image_width: 0, ..Parameters::default() };
    assert!(!zero_width.is_valid());
    let zero_height = Parameters { image_height: 0, ..Parameters::default() };
    assert!(!zero_height.is_valid());
    let no_samples = Parameters { antialias_samples: 0, ..Parameters::default() };
    assert!(!no_samples.is_valid());
    let no_bounces = Parameters { scatter_limit: 0, ..Parameters::default() };
    assert!(no_bounces.is_valid());
}

#[test]
fn zero_bounce_limit_gives_black() {
    let parameters = Parameters { scatter_limit: 0, ..Parameters::default() };
    assert_eq!(next_action(0, &parameters, TraceEvent::Miss), TraceAction::Black);
    assert_eq!(next_action(0, &parameters, TraceEvent::Hit { scattered: true }), TraceAction::Black);
}

#[test]
fn trace_steps() {
    let parameters = Parameters { scatter_limit: 2, ..Parameters::default() };
    assert_eq!(next_action(0, &parameters, TraceEvent::Miss), TraceAction::Background);
    assert_eq!(next_action(1, &parameters, TraceEvent::Hit { scattered: true }), TraceAction::Bounce);
    assert_eq!(next_action(1, &parameters, TraceEvent::Hit { scattered: false }), TraceAction::Black);
    assert_eq!(next_action(2, &parameters, TraceEvent::Hit { scattered: true }), TraceAction::Black);
    let normals = Parameters { debug_mode: Some(DebugMode::Normals), ..parameters };
    assert_eq!(
        next_action(0, &normals, TraceEvent::Hit { scattered: true }),
        TraceAction::Diagnostic(DebugMode::Normals)
    );
}
