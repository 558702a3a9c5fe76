//! The interface to the external graph renderer.
//!
//! The renderer is a collaborator outside this library: it takes the binned
//! per-hour numeric curves and returns SVG path and label strings. Those
//! strings flow back in through [`GraphOutput`], and [`extract_curve_data`]
//! separates a renderer's mixed list of curve paths by curve.

use vstd::prelude::*;

verus! {

/// One SVG path produced by the graph renderer, tagged by which curve it
/// belongs to.
pub enum GraphDataPath {
    Temp(String),
    TempFeelLike(String),
    Rain(String),
}

/// The concatenated contents of the `Temp` paths, in order.
pub open spec fn spec_temp_concat(s: Seq<GraphDataPath>) -> Seq<char>
    decreases s.len(),
{
    if s.len() == 0 {
        Seq::<char>::empty()
    } else {
        spec_temp_concat(s.drop_last()) + match s.last() {
            GraphDataPath::Temp(d) => d@,
            _ => Seq::<char>::empty(),
        }
    }
}

/// The concatenated contents of the `TempFeelLike` paths, in order.
pub open spec fn spec_feel_like_concat(s: Seq<GraphDataPath>) -> Seq<char>
    decreases s.len(),
{
    if s.len() == 0 {
        Seq::<char>::empty()
    } else {
        spec_feel_like_concat(s.drop_last()) + match s.last() {
            GraphDataPath::TempFeelLike(d) => d@,
            _ => Seq::<char>::empty(),
        }
    }
}

/// The concatenated contents of the `Rain` paths, in order.
pub open spec fn spec_rain_concat(s: Seq<GraphDataPath>) -> Seq<char>
    decreases s.len(),
{
    if s.len() == 0 {
        Seq::<char>::empty()
    } else {
        spec_rain_concat(s.drop_last()) + match s.last() {
            GraphDataPath::Rain(d) => d@,
            _ => Seq::<char>::empty(),
        }
    }
}

/// Separates a renderer's mixed path list into the three curve strings:
/// each is the concatenation, in order, of the paths tagged for that curve.
pub fn extract_curve_data(svg_result: &Vec<GraphDataPath>) -> (r: (String, String, String))
    ensures
        r.0@ == spec_temp_concat(svg_result@),
        r.1@ == spec_feel_like_concat(svg_result@),
        r.2@ == spec_rain_concat(svg_result@),
{
    let mut temp_acc = String::new();
    let mut feel_like_acc = String::new();
    let mut rain_acc = String::new();
    let mut i: usize = 0;
    while i < svg_result.len()
        invariant
            i <= svg_result@.len(),
            temp_acc@ == spec_temp_concat(svg_result@.take(i as int)),
            feel_like_acc@ == spec_feel_like_concat(svg_result@.take(i as int)),
            rain_acc@ == spec_rain_concat(svg_result@.take(i as int)),
        decreases svg_result.len() - i,
    {
        proof {
            assert(svg_result@.take(i + 1).drop_last() =~= svg_result@.take(i as int));
            assert(svg_result@.take(i + 1).last() == svg_result@[i as int]);
        }
        match &svg_result[i] {
            GraphDataPath::Temp(d) => temp_acc.append(d.as_str()),
            GraphDataPath::TempFeelLike(d) => feel_like_acc.append(d.as_str()),
            GraphDataPath::Rain(d) => rain_acc.append(d.as_str()),
        }
        proof {
            assert(temp_acc@ =~= spec_temp_concat(svg_result@.take(i + 1)));
            assert(feel_like_acc@ =~= spec_feel_like_concat(svg_result@.take(i + 1)));
            assert(rain_acc@ =~= spec_rain_concat(svg_result@.take(i + 1)));
        }
        i += 1;
    }
    proof {
        assert(svg_result@.take(svg_result@.len() as int) =~= svg_result@);
    }
    (temp_acc, feel_like_acc, rain_acc)
}

/// Everything the graph renderer hands back for the dashboard template: the
/// drawing dimensions, the three curve paths, the axes, labels and the UV
/// gradient.
pub struct GraphOutput {
    pub graph_height: String,
    pub graph_width: String,
    pub actual_temp_curve_data: String,
    pub feel_like_curve_data: String,
    pub rain_curve_data: String,
    pub x_axis_path: String,
    pub x_axis_guideline_path: String,
    pub y_left_axis_path: String,
    pub x_labels: String,
    pub y_left_labels: String,
    pub y_right_axis_path: String,
    pub y_right_labels: String,
    pub uv_gradient: String,
}

} // verus!
