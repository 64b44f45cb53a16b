use vstd::prelude::*;
use vstd::string::StringExecFns;

verus! {

/// How the points of a line are drawn.
#[derive(Debug, Clone, Copy, PartialEq, Eq)]
pub enum GraphType {
    Points,
    Lines,
    Steps,
    Bars,
}

impl Default for GraphType {
    fn default() -> (r: GraphType)
        ensures
            r == GraphType::Points,
    {
        GraphType::Points
    }
}

/// How an axis is drawn.
#[derive(Debug, Clone, Copy, PartialEq, Eq)]
pub enum GraphAxisStyle {
    /// The axis is not drawn.
    NoLine,
    Solid,
    Dotted,
    Dashed,
}

impl Default for GraphAxisStyle {
    fn default() -> (r: GraphAxisStyle)
        ensures
            r == GraphAxisStyle::Solid,
    {
        GraphAxisStyle::Solid
    }
}

/// The colour of a line. Each component may exceed what a byte holds.
#[derive(Debug, Clone, Copy, PartialEq, Eq)]
pub struct GraphLineColor {
    pub r: u16,
    pub g: u16,
    pub b: u16,
}

/// One point of a line. Each coordinate is held as the bit pattern of a
/// single-precision number.
#[derive(Debug, Clone, Copy, PartialEq, Eq)]
pub struct GraphPoint {
    pub x: u32,
    pub y: u32,
}

/// One line of a chart.
#[derive(Debug, Clone, PartialEq, Eq)]
pub struct GraphLineConfig {
    pub color: Option<GraphLineColor>,
    pub points: Vec<GraphPoint>,
}

/// What a chart is asked to look like. Whatever is left out gets its
/// default. Numbers that are not whole are held as the bit patterns of
/// single-precision numbers.
#[derive(Debug, Clone, PartialEq, Eq)]
pub struct GraphConfig {
    pub ty: Option<GraphType>,
    pub width: Option<u32>,
    pub height: Option<u32>,
    pub x_min: Option<u32>,
    pub x_max: Option<u32>,
    pub x_style: Option<GraphAxisStyle>,
    pub x_label: Option<String>,
    pub y_min: Option<u32>,
    pub y_max: Option<u32>,
    pub y_style: Option<GraphAxisStyle>,
    pub y_label: Option<String>,
    pub no_header: Option<bool>,
    pub no_axis: Option<bool>,
    pub no_borders: Option<bool>,
    pub no_figures: Option<bool>,
    pub lines: Vec<GraphLineConfig>,
}

/// What a chart is drawn with, every default filled in.
#[derive(Debug, Clone, PartialEq, Eq)]
pub struct DrawSettings {
    pub ty: GraphType,
    pub width: u32,
    pub height: u32,
    /// Where the horizontal axis starts, as a bit pattern.
    pub x_min: u32,
    /// Where the horizontal axis ends, as a bit pattern.
    pub x_max: u32,
    /// The two ends of the vertical axis, as bit patterns, where both are
    /// asked for; else the vertical axis follows the points.
    pub y_range: Option<(u32, u32)>,
    pub x_style: GraphAxisStyle,
    pub x_label: String,
    pub y_style: GraphAxisStyle,
    pub y_label: String,
    pub no_header: bool,
    pub no_axis: bool,
    pub no_borders: bool,
    pub no_figures: bool,
}

/// The pixel type `rgb::Rgb`, of which nothing is known here but what
/// `rgb8_channels` names.
#[verifier::external_type_specification]
#[verifier::external_body]
#[verifier::reject_recursive_types(T)]
pub struct ExRgb<T>(rgb::Rgb<T>);

/// The components of a pixel: red, green and blue, in this order.
pub uninterp spec fn rgb8_channels(pixel: rgb::Rgb<u8>) -> Seq<u8>;

/// Calls `rgb::Rgb::new`, which stores its three arguments as the red,
/// green and blue component of the pixel that it returns.
#[verifier::external_body]
fn rgb8(red: u8, green: u8, blue: u8) -> (pixel: rgb::Rgb<u8>)
    ensures
        rgb8_channels(pixel) == seq![red, green, blue],
{
    rgb::Rgb::new(red, green, blue)
}

/// A colour component cut down to what a byte holds.
pub open spec fn clamped(component: u16) -> u8 {
    if component <= 255 {
        component as u8
    } else {
        255u8
    }
}

/// A colour component cut down to what a byte holds.
pub fn clamp_channel(component: u16) -> (r: u8)
    ensures
        r == clamped(component),
{
    if component <= 255 {
        component as u8
    } else {
        255u8
    }
}

impl vstd::std_specs::convert::FromSpecImpl<GraphLineColor> for rgb::Rgb<u8> {
    /// A pixel is known only by its components, so the conversion is
    /// stated on `from` itself, over the components of its result.
    open spec fn obeys_from_spec() -> bool {
        false
    }

    open spec fn from_spec(color: GraphLineColor) -> rgb::Rgb<u8> {
        choose|pixel: rgb::Rgb<u8>|
            rgb8_channels(pixel) == seq![clamped(color.r), clamped(color.g), clamped(color.b)]
    }
}

impl From<GraphLineColor> for rgb::Rgb<u8> {
    fn from(color: GraphLineColor) -> (pixel: rgb::Rgb<u8>)
        ensures
            rgb8_channels(pixel) == seq![clamped(color.r), clamped(color.g), clamped(color.b)],
    {
        rgb8(clamp_channel(color.r), clamp_channel(color.g), clamp_channel(color.b))
    }
}

/// The plugin that draws charts.
#[derive(Debug, Clone, Copy, PartialEq, Eq)]
pub struct NuGraphsPlugin;

/// The command that draws one chart.
#[derive(Debug, Clone, Copy, PartialEq, Eq)]
pub struct Draw;

impl NuGraphsPlugin {
    /// The commands that the plugin offers.
    pub fn commands(&self) -> (r: Vec<Draw>)
        ensures
            r@ == seq![Draw],
    {
        vec![Draw]
    }
}

/// The width of a chart for which none is given.
pub const DEFAULT_WIDTH: u32 = 120;

/// The height of a chart for which none is given.
pub const DEFAULT_HEIGHT: u32 = 60;

/// The bit pattern of the least finite single-precision number.
pub const LEAST_FINITE_BITS: u32 = 0xFF7F_FFFF;

/// The bit pattern of the greatest finite single-precision number.
pub const GREATEST_FINITE_BITS: u32 = 0x7F7F_FFFF;

/// `m` occurs in `bits` and no element of `bits` is below it.
pub open spec fn is_least(bits: Seq<u32>, m: u32) -> bool {
    &&& bits.contains(m)
    &&& forall|i: int| 0 <= i < bits.len() ==> m <= bits[i]
}

/// `m` occurs in `bits` and no element of `bits` is above it.
pub open spec fn is_greatest(bits: Seq<u32>, m: u32) -> bool {
    &&& bits.contains(m)
    &&& forall|i: int| 0 <= i < bits.len() ==> bits[i] <= m
}

/// What a chart shows above its drawing: the labels of the two axes with a
/// slash between them and a line break after them, unless the header is
/// switched off.
pub open spec fn with_header(
    no_header: bool,
    y_label: Seq<char>,
    x_label: Seq<char>,
    chart: Seq<char>,
) -> Seq<char> {
    if no_header {
        chart
    } else {
        y_label + seq!['/'] + x_label + seq!['\n'] + chart
    }
}

/// The horizontal coordinates of the points of one line, point by point.
pub open spec fn line_x_bits(points: Seq<GraphPoint>) -> Seq<u32> {
    Seq::new(points.len(), |i: int| points[i].x)
}

/// The horizontal coordinates of all points of all lines, line after line.
pub open spec fn all_x_bits(lines: Seq<GraphLineConfig>) -> Seq<u32>
    decreases lines.len(),
{
    if lines.len() == 0 {
        Seq::empty()
    } else {
        all_x_bits(lines.drop_last()) + line_x_bits(lines.last().points@)
    }
}

/// `start` is where the horizontal axis starts: the start that is asked
/// for; without one, the least bit pattern among `bits`; without points,
/// that of the least finite number.
pub open spec fn is_x_min(given: Option<u32>, bits: Seq<u32>, start: u32) -> bool {
    match given {
        Some(asked) => start == asked,
        None => if bits.len() > 0 {
            is_least(bits, start)
        } else {
            start == LEAST_FINITE_BITS
        },
    }
}

/// `end` is where the horizontal axis ends: the end that is asked for;
/// without one, the greatest bit pattern among `bits`; without points,
/// that of the greatest finite number.
pub open spec fn is_x_max(given: Option<u32>, bits: Seq<u32>, end: u32) -> bool {
    match given {
        Some(asked) => end == asked,
        None => if bits.len() > 0 {
            is_greatest(bits, end)
        } else {
            end == GREATEST_FINITE_BITS
        },
    }
}

/// The two ends of the vertical axis where both are asked for.
pub open spec fn y_range_of(y_min: Option<u32>, y_max: Option<u32>) -> Option<(u32, u32)> {
    match (y_min, y_max) {
        (Some(low), Some(high)) => Some((low, high)),
        _ => None,
    }
}

/// What is asked for, or `default` where nothing is.
pub open spec fn or_default<T>(given: Option<T>, default: T) -> T {
    match given {
        Some(asked) => asked,
        None => default,
    }
}

/// The label that is asked for, or `default` where none is.
pub open spec fn label_or(given: Option<String>, default: Seq<char>) -> Seq<char> {
    match given {
        Some(label) => label@,
        None => default,
    }
}

impl Draw {
    pub fn name(&self) -> (r: &'static str)
        ensures
            r@ == "draw"@,
    {
        "draw"
    }

    pub fn description(&self) -> (r: &'static str)
        ensures
            r@ == "Draw a chart"@,
    {
        "Draw a chart"
    }

    /// The width that is asked for, or the default.
    pub fn width(given: Option<u32>) -> (r: u32)
        ensures
            r == or_default(given, DEFAULT_WIDTH),
    {
        match given {
            Some(width) => width,
            None => DEFAULT_WIDTH,
        }
    }

    /// The height that is asked for, or the default.
    pub fn height(given: Option<u32>) -> (r: u32)
        ensures
            r == or_default(given, DEFAULT_HEIGHT),
    {
        match given {
            Some(height) => height,
            None => DEFAULT_HEIGHT,
        }
    }

    /// The label of the horizontal axis: the one that is asked for, or `X`.
    pub fn x_label(given: Option<String>) -> (r: String)
        ensures
            r@ == label_or(given, "X"@),
    {
        match given {
            Some(label) => label,
            None => String::from_str("X"),
        }
    }

    /// The label of the vertical axis: the one that is asked for, or `Y`.
    pub fn y_label(given: Option<String>) -> (r: String)
        ensures
            r@ == label_or(given, "Y"@),
    {
        match given {
            Some(label) => label,
            None => String::from_str("Y"),
        }
    }

    /// Where the horizontal axis starts, as a bit pattern: the start that
    /// is asked for; without one, the least bit pattern among the
    /// horizontal coordinates of all points; without points, that of the
    /// least finite number.
    pub fn x_min(given: Option<u32>, all_x_bits: &Vec<u32>) -> (r: u32)
        ensures
            is_x_min(given, all_x_bits@, r),
    {
        match given {
            Some(bits) => bits,
            None => {
                if all_x_bits.len() == 0 {
                    LEAST_FINITE_BITS
                } else {
                    let mut least = all_x_bits[0];
                    let mut i: usize = 1;
                    assert(all_x_bits@.take(1)[0] == least);
                    while i < all_x_bits.len()
                        invariant
                            1 <= i <= all_x_bits.len(),
                            is_least(all_x_bits@.take(i as int), least),
                        decreases all_x_bits.len() - i,
                    {
                        if all_x_bits[i] < least {
                            least = all_x_bits[i];
                        }
                        i += 1;
                        assert(all_x_bits@.take(i as int)[i - 1] == all_x_bits@[i - 1]);
                    }
                    assert(all_x_bits@.take(i as int) =~= all_x_bits@);
                    least
                }
            },
        }
    }

    /// Where the horizontal axis ends, as a bit pattern: the end that is
    /// asked for; without one, the greatest bit pattern among the
    /// horizontal coordinates of all points; without points, that of the
    /// greatest finite number.
    pub fn x_max(given: Option<u32>, all_x_bits: &Vec<u32>) -> (r: u32)
        ensures
            is_x_max(given, all_x_bits@, r),
    {
        match given {
            Some(bits) => bits,
            None => {
                if all_x_bits.len() == 0 {
                    GREATEST_FINITE_BITS
                } else {
                    let mut greatest = all_x_bits[0];
                    let mut i: usize = 1;
                    assert(all_x_bits@.take(1)[0] == greatest);
                    while i < all_x_bits.len()
                        invariant
                            1 <= i <= all_x_bits.len(),
                            is_greatest(all_x_bits@.take(i as int), greatest),
                        decreases all_x_bits.len() - i,
                    {
                        if all_x_bits[i] > greatest {
                            greatest = all_x_bits[i];
                        }
                        i += 1;
                        assert(all_x_bits@.take(i as int)[i - 1] == all_x_bits@[i - 1]);
                    }
                    assert(all_x_bits@.take(i as int) =~= all_x_bits@);
                    greatest
                }
            },
        }
    }

    /// The horizontal coordinates of all points of all lines, line after
    /// line.
    pub fn all_x_bits(lines: &Vec<GraphLineConfig>) -> (r: Vec<u32>)
        ensures
            r@ == all_x_bits(lines@),
    {
        let mut out: Vec<u32> = Vec::new();
        let mut i: usize = 0;
        while i < lines.len()
            invariant
                i <= lines.len(),
                out@ == all_x_bits(lines@.take(i as int)),
            decreases lines.len() - i,
        {
            let points = &lines[i].points;
            let ghost before = out@;
            let mut j: usize = 0;
            while j < points.len()
                invariant
                    j <= points.len(),
                    out@ == before + line_x_bits(points@).take(j as int),
                decreases points.len() - j,
            {
                out.push(points[j].x);
                j += 1;
            }
            i += 1;
            proof {
                assert(lines@.take(i as int).drop_last() =~= lines@.take(i - 1));
            }
        }
        assert(lines@.take(i as int) =~= lines@);
        out
    }

    /// What the chart is drawn with: what `config` asks for, with the
    /// default for whatever it leaves out.
    pub fn settings(config: &GraphConfig) -> (s: DrawSettings)
        ensures
            s.ty == or_default(config.ty, GraphType::Points),
            s.width == or_default(config.width, DEFAULT_WIDTH),
            s.height == or_default(config.height, DEFAULT_HEIGHT),
            is_x_min(config.x_min, all_x_bits(config.lines@), s.x_min),
            is_x_max(config.x_max, all_x_bits(config.lines@), s.x_max),
            s.y_range == y_range_of(config.y_min, config.y_max),
            s.x_style == or_default(config.x_style, GraphAxisStyle::Solid),
            s.x_label@ == label_or(config.x_label, "X"@),
            s.y_style == or_default(config.y_style, GraphAxisStyle::Solid),
            s.y_label@ == label_or(config.y_label, "Y"@),
            s.no_header == or_default(config.no_header, false),
            s.no_axis == or_default(config.no_axis, false),
            s.no_borders == or_default(config.no_borders, false),
            s.no_figures == or_default(config.no_figures, false),
    {
        let bits = Draw::all_x_bits(&config.lines);
        let x_label = match &config.x_label {
            Some(label) => Some(label.clone()),
            None => None,
        };
        let y_label = match &config.y_label {
            Some(label) => Some(label.clone()),
            None => None,
        };
        DrawSettings {
            ty: match config.ty {
                Some(ty) => ty,
                None => GraphType::default(),
            },
            width: Draw::width(config.width),
            height: Draw::height(config.height),
            x_min: Draw::x_min(config.x_min, &bits),
            x_max: Draw::x_max(config.x_max, &bits),
            y_range: match (config.y_min, config.y_max) {
                (Some(low), Some(high)) => Some((low, high)),
                _ => None,
            },
            x_style: match config.x_style {
                Some(style) => style,
                None => GraphAxisStyle::default(),
            },
            x_label: Draw::x_label(x_label),
            y_style: match config.y_style {
                Some(style) => style,
                None => GraphAxisStyle::default(),
            },
            y_label: Draw::y_label(y_label),
            no_header: Draw::flag(config.no_header),
            no_axis: Draw::flag(config.no_axis),
            no_borders: Draw::flag(config.no_borders),
            no_figures: Draw::flag(config.no_figures),
        }
    }

    /// The switch that is asked for, or off.
    pub fn flag(given: Option<bool>) -> (r: bool)
        ensures
            r == or_default(given, false),
    {
        match given {
            Some(flag) => flag,
            None => false,
        }
    }

    /// The text that the command hands back once the chart is drawn: the
    /// drawing `chart`, under a header that names the axes unless the
    /// settings switch the header off.
    pub fn run(&self, settings: &DrawSettings, chart: &str) -> (r: String)
        ensures
            r@ == with_header(settings.no_header, settings.y_label@, settings.x_label@, chart@),
    {
        if settings.no_header {
            String::from_str(chart)
        } else {
            let mut out = settings.y_label.clone();
            out.append("/");
            out.append(settings.x_label.as_str());
            out.append("\n");
            out.append(chart);
            proof {
                reveal_strlit("/");
                reveal_strlit("\n");
            }
            out
        }
    }
}

} // verus!
