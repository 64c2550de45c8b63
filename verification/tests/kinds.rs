use gl_programs::FragmentBody;
use gl_programs::ProgramKind;

#[test]
fn all_lists_every_kind_once_in_order() {
    let all = ProgramKind::all();
    assert_eq!(
        all,
        vec![
            ProgramKind::Picker,
            ProgramKind::Picker2,
            ProgramKind::Hue,
            ProgramKind::Lightness,
            ProgramKind::Chroma,
            ProgramKind::Alpha,
            ProgramKind::FinalPrevious,
            ProgramKind::Final,
        ]
    );
    for i in 0..all.len() {
        for j in 0..all.len() {
            if i != j {
                assert_ne!(all[i], all[j]);
            }
        }
    }
}

#[test]
fn default_kind_is_picker() {
    assert_eq!(ProgramKind::default(), ProgramKind::Picker);
}

#[test]
fn fragment_bodies_follow_the_kind() {
    assert_eq!(ProgramKind::Picker.fragment_body(), FragmentBody::Picker);
    assert_eq!(ProgramKind::Picker2.fragment_body(), FragmentBody::Picker2);
    assert_eq!(ProgramKind::Hue.fragment_body(), FragmentBody::Hue);
    assert_eq!(ProgramKind::Lightness.fragment_body(), FragmentBody::Lightness);
    assert_eq!(ProgramKind::Chroma.fragment_body(), FragmentBody::Chroma);
    assert_eq!(ProgramKind::Alpha.fragment_body(), FragmentBody::Alpha);
}

#[test]
fn final_and_final_previous_share_one_body() {
    assert_eq!(
        ProgramKind::Final.fragment_body(),
        ProgramKind::FinalPrevious.fragment_body()
    );
    assert_eq!(ProgramKind::Final.fragment_body(), FragmentBody::Final);
}

#[test]
fn other_kinds_have_distinct_bodies() {
    let kinds = ProgramKind::all();
    for a in &kinds {
        for b in &kinds {
            let shared_final = matches!(a, ProgramKind::Final | ProgramKind::FinalPrevious)
                && matches!(b, ProgramKind::Final | ProgramKind::FinalPrevious);
            if a != b && !shared_final {
                assert_ne!(a.fragment_body(), b.fragment_body());
            }
        }
    }
}
