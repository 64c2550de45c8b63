use gl_programs::PaintCommand;
use gl_programs::ProgramKind;
use gl_programs::UniformValue;

// Resolves each uniform write of a kind's draw pass against concrete inputs,
// the way a context-owning interpreter would: hue/lightness/chroma come from
// the color, `color` comes from one of the two fallback arrays, and `width`
// from the width argument.
fn uploads(
    kind: ProgramKind,
    hue: f32,
    lightness: f32,
    chroma: f32,
    fallback: [f32; 4],
    previous: [f32; 4],
    width: f32,
) -> Vec<(String, Vec<f32>)> {
    let mut out = Vec::new();
    for command in kind.paint_commands() {
        if let PaintCommand::SetUniform(u) = command {
            let values: Vec<f32> = match u {
                UniformValue::WidthInput => vec![width],
                UniformValue::ColorHue => vec![hue],
                UniformValue::ColorLightness => vec![lightness],
                UniformValue::ColorChroma => vec![chroma],
                UniformValue::FallbackRgb => fallback[0..3].to_vec(),
                UniformValue::FallbackRgba => fallback.to_vec(),
                UniformValue::PreviousFallbackRgba => previous.to_vec(),
            };
            assert_eq!(values.len(), u.component_count() as usize);
            out.push((u.name().to_string(), values));
        }
    }
    out
}

const FALLBACK: [f32; 4] = [0.2, 0.4, 0.6, 1.0];
const PREVIOUS: [f32; 4] = [0.9, 0.8, 0.7, 0.5];

#[test]
fn chroma_uploads_hue_and_lightness_and_no_color() {
    let got = uploads(ProgramKind::Chroma, 120.0, 0.5, 0.1, FALLBACK, PREVIOUS, 300.0);
    assert_eq!(
        got,
        vec![
            ("width".to_string(), vec![300.0]),
            ("hue".to_string(), vec![120.0]),
            ("lightness".to_string(), vec![0.5]),
        ]
    );
    assert!(got.iter().all(|(name, _)| name != "color"));
}

#[test]
fn final_uploads_fallback_rgba_and_no_color_fields() {
    let got = uploads(ProgramKind::Final, 120.0, 0.5, 0.1, FALLBACK, PREVIOUS, 300.0);
    assert_eq!(
        got,
        vec![
            ("width".to_string(), vec![300.0]),
            ("color".to_string(), vec![0.2, 0.4, 0.6, 1.0]),
        ]
    );
    assert!(got
        .iter()
        .all(|(name, _)| name != "hue" && name != "lightness" && name != "chroma"));
}

#[test]
fn final_previous_uploads_the_previous_fallback() {
    let got = uploads(
        ProgramKind::FinalPrevious,
        120.0,
        0.5,
        0.1,
        FALLBACK,
        PREVIOUS,
        300.0,
    );
    assert_eq!(
        got,
        vec![
            ("width".to_string(), vec![300.0]),
            ("color".to_string(), vec![0.9, 0.8, 0.7, 0.5]),
        ]
    );
}

#[test]
fn alpha_uploads_only_the_rgb_of_the_fallback() {
    let got = uploads(ProgramKind::Alpha, 120.0, 0.5, 0.1, FALLBACK, PREVIOUS, 300.0);
    assert_eq!(
        got,
        vec![
            ("width".to_string(), vec![300.0]),
            ("color".to_string(), vec![0.2, 0.4, 0.6]),
        ]
    );
}
