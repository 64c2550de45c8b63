use vstd::prelude::*;

verus! {

/// Role a compiled shader program plays in the color-picker widget: the two
/// picker-area variants, the four strips, and the two final swatches.
///
/// The set is closed and the values are stateless tags: a kind drives both
/// which fragment body the program is built from and which uniforms the draw
/// pass uploads.
#[derive(Clone, Copy, Debug, Hash, PartialEq, Eq, Structural)]
pub enum ProgramKind {
    Picker,
    Picker2,
    Hue,
    Lightness,
    Chroma,
    Alpha,
    FinalPrevious,
    Final,
}

/// Fragment-shader body a program is built from, always concatenated after
/// the shared function library. The two final swatch kinds share one body
/// (they differ only in which fallback color they upload); every other kind
/// has a body of its own.
#[derive(Clone, Copy, Debug, PartialEq, Eq, Structural)]
pub enum FragmentBody {
    Picker,
    Picker2,
    Hue,
    Lightness,
    Chroma,
    Alpha,
    Final,
}

impl ProgramKind {
    /// Fragment body this kind's program is built from.
    pub open spec fn spec_fragment_body(self) -> FragmentBody {
        match self {
            ProgramKind::Picker => FragmentBody::Picker,
            ProgramKind::Picker2 => FragmentBody::Picker2,
            ProgramKind::Hue => FragmentBody::Hue,
            ProgramKind::Lightness => FragmentBody::Lightness,
            ProgramKind::Chroma => FragmentBody::Chroma,
            ProgramKind::Alpha => FragmentBody::Alpha,
            ProgramKind::FinalPrevious => FragmentBody::Final,
            ProgramKind::Final => FragmentBody::Final,
        }
    }

    /// Select the fragment body this kind's program is built from.
    pub fn fragment_body(&self) -> (r: FragmentBody)
        ensures
            r == self.spec_fragment_body(),
    {
        match self {
            ProgramKind::Picker => FragmentBody::Picker,
            ProgramKind::Picker2 => FragmentBody::Picker2,
            ProgramKind::Hue => FragmentBody::Hue,
            ProgramKind::Lightness => FragmentBody::Lightness,
            ProgramKind::Chroma => FragmentBody::Chroma,
            ProgramKind::Alpha => FragmentBody::Alpha,
            ProgramKind::FinalPrevious => FragmentBody::Final,
            ProgramKind::Final => FragmentBody::Final,
        }
    }

    /// Every kind, once each, in declaration order.
    pub open spec fn spec_all() -> Seq<ProgramKind> {
        seq![
            ProgramKind::Picker,
            ProgramKind::Picker2,
            ProgramKind::Hue,
            ProgramKind::Lightness,
            ProgramKind::Chroma,
            ProgramKind::Alpha,
            ProgramKind::FinalPrevious,
            ProgramKind::Final,
        ]
    }

    /// List every kind, once each, in declaration order.
    pub fn all() -> (r: Vec<ProgramKind>)
        ensures
            r@ == ProgramKind::spec_all(),
    {
        let mut v: Vec<ProgramKind> = Vec::new();
        v.push(ProgramKind::Picker);
        v.push(ProgramKind::Picker2);
        v.push(ProgramKind::Hue);
        v.push(ProgramKind::Lightness);
        v.push(ProgramKind::Chroma);
        v.push(ProgramKind::Alpha);
        v.push(ProgramKind::FinalPrevious);
        v.push(ProgramKind::Final);
        proof {
            assert(v@ =~= ProgramKind::spec_all());
        }
        v
    }
}

impl Default for ProgramKind {
    /// The picker area is the widget's primary program.
    fn default() -> (r: Self)
        ensures
            r == ProgramKind::Picker,
    {
        ProgramKind::Picker
    }
}

} // verus!
