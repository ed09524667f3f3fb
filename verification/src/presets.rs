//! Named decoder parameter presets for common decoding scenarios.

use vstd::prelude::*;

verus! {

use vstd::string::StringExecFns;
use crate::sstv::DecoderMode;
use crate::sstv::DecoderParams;

/// A named set of decoder parameters.
#[derive(Debug, Clone, Copy, PartialEq)]
pub struct DecoderPreset {
    /// Human-readable preset name.
    pub name: &'static str,
    /// The parameters the preset selects.
    pub params: DecoderParams,
}

/// The standard presets, in display order.
pub open spec fn spec_presets() -> Seq<DecoderPreset> {
    seq![
        DecoderPreset {
            name: "Voyager Default",
            params: DecoderParams {
                line_duration_us: 8300u32,
                threshold: 200_000u32,
                decode_window_ms: 2000u32,
                mode: DecoderMode::BinaryGrayscale,
            },
        },
        DecoderPreset {
            name: "High Resolution",
            params: DecoderParams {
                line_duration_us: 12_000u32,
                threshold: 150_000u32,
                decode_window_ms: 3000u32,
                mode: DecoderMode::BinaryGrayscale,
            },
        },
        DecoderPreset {
            name: "Fast Scan",
            params: DecoderParams {
                line_duration_us: 5000u32,
                threshold: 250_000u32,
                decode_window_ms: 1500u32,
                mode: DecoderMode::BinaryGrayscale,
            },
        },
        DecoderPreset {
            name: "Color (Pseudocolor)",
            params: DecoderParams {
                line_duration_us: 8300u32,
                threshold: 200_000u32,
                decode_window_ms: 2000u32,
                mode: DecoderMode::PseudoColor,
            },
        },
        DecoderPreset {
            name: "Sensitive (Low Threshold)",
            params: DecoderParams {
                line_duration_us: 8300u32,
                threshold: 100_000u32,
                decode_window_ms: 2000u32,
                mode: DecoderMode::BinaryGrayscale,
            },
        },
        DecoderPreset {
            name: "Test Pattern",
            params: DecoderParams {
                line_duration_us: 10_000u32,
                threshold: 300_000u32,
                decode_window_ms: 2500u32,
                mode: DecoderMode::BinaryGrayscale,
            },
        },
    ]
}

/// Builds the standard presets.
pub fn presets() -> (v: Vec<DecoderPreset>)
    ensures
        v@ == spec_presets(),
{
    let mut v: Vec<DecoderPreset> = Vec::new();
    v.push(
        DecoderPreset {
            name: "Voyager Default",
            params: DecoderParams {
                line_duration_us: 8300,
                threshold: 200_000,
                decode_window_ms: 2000,
                mode: DecoderMode::BinaryGrayscale,
            },
        },
    );
    v.push(
        DecoderPreset {
            name: "High Resolution",
            params: DecoderParams {
                line_duration_us: 12_000,
                threshold: 150_000,
                decode_window_ms: 3000,
                mode: DecoderMode::BinaryGrayscale,
            },
        },
    );
    v.push(
        DecoderPreset {
            name: "Fast Scan",
            params: DecoderParams {
                line_duration_us: 5000,
                threshold: 250_000,
                decode_window_ms: 1500,
                mode: DecoderMode::BinaryGrayscale,
            },
        },
    );
    v.push(
        DecoderPreset {
            name: "Color (Pseudocolor)",
            params: DecoderParams {
                line_duration_us: 8300,
                threshold: 200_000,
                decode_window_ms: 2000,
                mode: DecoderMode::PseudoColor,
            },
        },
    );
    v.push(
        DecoderPreset {
            name: "Sensitive (Low Threshold)",
            params: DecoderParams {
                line_duration_us: 8300,
                threshold: 100_000,
                decode_window_ms: 2000,
                mode: DecoderMode::BinaryGrayscale,
            },
        },
    );
    v.push(
        DecoderPreset {
            name: "Test Pattern",
            params: DecoderParams {
                line_duration_us: 10_000,
                threshold: 300_000,
                decode_window_ms: 2500,
                mode: DecoderMode::BinaryGrayscale,
            },
        },
    );
    proof {
        assert(v@ =~= spec_presets());
    }
    v
}

/// Parameter equality, field by field. The integer representation makes the
/// comparison exact: two parameter sets closer than one unit in any field
/// are already stored as the same values.
pub fn params_equal(a: &DecoderParams, b: &DecoderParams) -> (r: bool)
    ensures
        r == (*a == *b),
{
    a.line_duration_us == b.line_duration_us && a.threshold == b.threshold
        && a.decode_window_ms == b.decode_window_ms && a.mode == b.mode
}

/// Finds a preset by name.
///
/// Returns the first preset whose name matches, and `None` exactly when no
/// preset carries the name.
pub fn find_preset(name: &str) -> (r: Option<DecoderPreset>)
    ensures
        r matches Some(p) ==> exists|i: int|
            0 <= i < spec_presets().len() && spec_presets()[i] == p && p.name@ == name@,
        r is None ==> forall|i: int|
            0 <= i < spec_presets().len() ==> (#[trigger] spec_presets()[i].name)@ != name@,
{
    let all = presets();
    let wanted = String::from_str(name);
    let mut i: usize = 0;
    while i < all.len()
        invariant
            all@ == spec_presets(),
            i <= all@.len(),
            wanted@ == name@,
            forall|j: int| 0 <= j < i ==> (#[trigger] spec_presets()[j].name)@ != name@,
        decreases all@.len() - i,
    {
        let candidate = String::from_str(all[i].name);
        if candidate == wanted {
            return Some(all[i]);
        }
        i += 1;
    }
    None
}

/// The name of the first preset whose parameters equal the given ones, or
/// `None` exactly when no preset matches.
pub fn matches_preset(params: &DecoderParams) -> (r: Option<&'static str>)
    ensures
        r matches Some(n) ==> exists|i: int|
            0 <= i < spec_presets().len() && spec_presets()[i].name == n && spec_presets()[i].params
                == *params,
        r is None ==> forall|i: int|
            0 <= i < spec_presets().len() ==> (#[trigger] spec_presets()[i].params) != *params,
{
    let all = presets();
    let mut i: usize = 0;
    while i < all.len()
        invariant
            all@ == spec_presets(),
            i <= all@.len(),
            forall|j: int| 0 <= j < i ==> (#[trigger] spec_presets()[j].params) != *params,
        decreases all@.len() - i,
    {
        if params_equal(&all[i].params, params) {
            return Some(all[i].name);
        }
        i += 1;
    }
    None
}

} // verus!
