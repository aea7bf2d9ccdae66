//! The modern theme: where it writes the numbers of a match.

use vstd::prelude::*;
use crate::game::geometry::Point;

verus! {

/// The numbers that the theme shows beside the field.
#[derive(Clone, Copy, Debug, PartialEq, Eq, Structural)]
pub enum GameMetricType {
    Score,
    Level,
    Lines,
}

impl GameMetricType {
    /// The label as a value.
    pub open spec fn spec_label(self) -> Seq<char> {
        match self {
            GameMetricType::Score => "SCORE"@,
            GameMetricType::Level => "LEVEL"@,
            GameMetricType::Lines => "LINES"@,
        }
    }

    /// The label that is written above the number.
    pub fn label(&self) -> (label: &'static str)
        ensures
            label@ == self.spec_label(),
    {
        match self {
            GameMetricType::Score => "SCORE",
            GameMetricType::Level => "LEVEL",
            GameMetricType::Lines => "LINES",
        }
    }
}

/// The room between the number of one metric and the label of the next.
pub const VERTICAL_SPACING: u32 = 2;

/// Where a number is written: from `point` to the right, or up to `point`
/// from the left. `max_value` is the greatest number that has to fit.
#[derive(Clone, Copy, Debug, PartialEq, Eq, Structural)]
pub struct MetricSnips {
    pub point: Point,
    pub max_value: u32,
    pub right_aligned: bool,
}

/// What the fonts say of one metric: the size of its greatest number, and
/// the size of its label.
#[derive(Clone, Copy, Debug, PartialEq, Eq, Structural)]
pub struct MetricSize {
    pub metric: GameMetricType,
    pub max_value: u32,
    pub value_width: u32,
    pub value_height: u32,
    pub label_width: u32,
    pub label_height: u32,
}

impl MetricSize {
    /// The height that the metric takes: its label, the spacing, its number.
    pub open spec fn height(self) -> int {
        self.value_height + self.label_height + VERTICAL_SPACING
    }
}

/// One metric on the screen: its label, and below it its number.
#[derive(Clone, Copy, Debug, PartialEq, Eq, Structural)]
pub struct GameMetricsRow {
    pub metric: GameMetricType,
    pub value: MetricSnips,
    pub label: Point,
    pub label_width: u32,
    pub value_width: u32,
}

impl GameMetricsRow {
    /// The width of the row: that of its label or of its number, whichever
    /// is wider.
    pub open spec fn spec_width(&self) -> u32 {
        if self.value_width >= self.label_width {
            self.value_width
        } else {
            self.label_width
        }
    }

    /// The width of the row.
    pub fn width(&self) -> (width: u32)
        ensures
            width == self.spec_width(),
    {
        if self.value_width >= self.label_width {
            self.value_width
        } else {
            self.label_width
        }
    }

    /// The row right-aligned at `width`.
    pub open spec fn right_aligned(self, width: int) -> GameMetricsRow {
        GameMetricsRow {
            value: MetricSnips {
                point: Point { x: width as i32, y: self.value.point.y },
                max_value: self.value.max_value,
                right_aligned: true,
            },
            label: Point { x: (width - self.label_width) as i32, y: self.label.y },
            ..self
        }
    }

    /// The row moved to the right by `x`.
    pub open spec fn offset(self, x: int) -> GameMetricsRow {
        GameMetricsRow {
            value: MetricSnips {
                point: Point { x: (self.value.point.x + x) as i32, y: self.value.point.y },
                ..self.value
            },
            label: Point { x: (self.label.x + x) as i32, y: self.label.y },
            ..self
        }
    }
}

/// Whether every height of `sizes` can be taken off a position on the screen.
pub open spec fn sizes_fit(sizes: Seq<MetricSize>) -> bool {
    forall|k: int|
        0 <= k < sizes.len() ==> (#[trigger] sizes[k]).value_height <= i32::MAX
            && sizes[k].label_height + VERTICAL_SPACING <= i32::MAX
}

/// The height of the metrics of `sizes` from place `from` on.
pub open spec fn stacked(sizes: Seq<MetricSize>, from: int) -> int
    decreases sizes.len() - from,
{
    if from < 0 || from >= sizes.len() {
        0
    } else {
        sizes[from].height() + stacked(sizes, from + 1)
    }
}

/// The row of the metric at place `k` of `sizes` in a table that stands on
/// the line `bottom`: the metrics stand on one another, the last at the
/// bottom, each with its label above its number, at the left edge.
pub open spec fn row_at(bottom: int, sizes: Seq<MetricSize>, k: int) -> GameMetricsRow {
    let top = bottom - stacked(sizes, k);
    GameMetricsRow {
        metric: sizes[k].metric,
        value: MetricSnips {
            point: Point { x: 0, y: (top + sizes[k].label_height + VERTICAL_SPACING) as i32 },
            max_value: sizes[k].max_value,
            right_aligned: false,
        },
        label: Point { x: 0, y: top as i32 },
        label_width: sizes[k].label_width,
        value_width: sizes[k].value_width,
    }
}

/// The greatest width among the first `n` of `rows`.
pub open spec fn widest(rows: Seq<GameMetricsRow>, n: int) -> int
    decreases n,
{
    if n <= 0 {
        0
    } else {
        let rest = widest(rows, n - 1);
        if rows[n - 1].spec_width() > rest {
            rows[n - 1].spec_width() as int
        } else {
            rest
        }
    }
}

/// The metrics of a match as the theme lays them out, from the bottom up.
pub struct GameMetricsTable {
    pub rows: Vec<GameMetricsRow>,
}

impl GameMetricsTable {
    /// The table of the metrics of `sizes` that stands on the lower edge of
    /// a field `visible_height` high: the last metric at the bottom, the
    /// others above it. The rows come from the bottom up.
    pub fn new(visible_height: u32, sizes: &[MetricSize]) -> (table: Self)
        requires
            visible_height <= i32::MAX,
            sizes_fit(sizes@),
            visible_height - stacked(sizes@, 0) >= i32::MIN,
        ensures
            table.rows@.len() == sizes@.len(),
            forall|i: int|
                0 <= i < sizes@.len() ==> #[trigger] table.rows@[i] == row_at(
                    visible_height as int,
                    sizes@,
                    sizes@.len() - 1 - i,
                ),
    {
        let n: usize = sizes.len();
        let mut y: i32 = visible_height as i32;  // start from the bottom
        let x: i32 = 0;
        let mut rows: Vec<GameMetricsRow> = Vec::new();
        let mut done: usize = 0;
        proof {
            lemma_stacked_bounds(sizes@, 0, n as int);
        }
        while done < n
            invariant
                done <= n,
                n == sizes@.len(),
                x == 0,
                visible_height <= i32::MAX,
                sizes_fit(sizes@),
                visible_height - stacked(sizes@, 0) >= i32::MIN,
                rows@.len() == done,
                y == visible_height - stacked(sizes@, n - done),
                forall|i: int|
                    0 <= i < done ==> #[trigger] rows@[i] == row_at(
                        visible_height as int,
                        sizes@,
                        n - 1 - i,
                    ),
            decreases n - done,
        {
            let k: usize = n - 1 - done;
            let size = sizes[k];
            proof {
                lemma_stacked_bounds(sizes@, 0, k as int);
                lemma_stacked_bounds(sizes@, 0, k as int + 1);
            }
            y = y - size.value_height as i32;
            let value = MetricSnips {
                point: Point::new(x, y),
                max_value: size.max_value,
                right_aligned: false,
            };
            y = y - (size.label_height + VERTICAL_SPACING) as i32;
            let label = Point::new(x, y);
            rows.push(
                GameMetricsRow {
                    metric: size.metric,
                    value,
                    label,
                    value_width: size.value_width,
                    label_width: size.label_width,
                },
            );
            done = done + 1;
        }
        GameMetricsTable { rows }
    }

    /// The table with its rows right-aligned at its width.
    pub fn into_right_aligned(self) -> (table: Self)
        requires
            self.rows@.len() > 0,
            widest(self.rows@, self.rows@.len() as int) <= i32::MAX,
        ensures
            table.rows@.len() == self.rows@.len(),
            forall|i: int|
                0 <= i < self.rows@.len() ==> #[trigger] table.rows@[i]
                    == self.rows@[i].right_aligned(widest(self.rows@, self.rows@.len() as int)),
    {
        let width: i32 = self.width() as i32;
        let n: usize = self.rows.len();
        let mut rows: Vec<GameMetricsRow> = Vec::new();
        let mut i: usize = 0;
        while i < n
            invariant
                i <= n,
                n == self.rows@.len(),
                width == widest(self.rows@, n as int),
                rows@.len() == i,
                forall|j: int|
                    0 <= j < i ==> #[trigger] rows@[j] == self.rows@[j].right_aligned(width as int),
            decreases n - i,
        {
            let r = self.rows[i];
            proof {
                lemma_widest_bounds(self.rows@, n as int, i as int);
            }
            rows.push(
                GameMetricsRow {
                    value: MetricSnips {
                        point: Point::new(width, r.value.point.y),
                        max_value: r.value.max_value,
                        right_aligned: true,
                    },
                    label: Point::new(width - r.label_width as i32, r.label.y),
                    metric: r.metric,
                    label_width: r.label_width,
                    value_width: r.value_width,
                },
            );
            i = i + 1;
        }
        GameMetricsTable { rows }
    }

    /// Moves the table to the right by `x`.
    pub fn offset_x(&mut self, x: i32)
        requires
            forall|i: int|
                0 <= i < old(self).rows@.len() ==> i32::MIN <= (#[trigger] old(
                    self,
                ).rows@[i]).value.point.x + x <= i32::MAX && i32::MIN <= old(self).rows@[i].label.x
                    + x <= i32::MAX,
        ensures
            final(self).rows@.len() == old(self).rows@.len(),
            forall|i: int|
                0 <= i < old(self).rows@.len() ==> #[trigger] final(self).rows@[i] == old(
                    self,
                ).rows@[i].offset(x as int),
    {
        let n: usize = self.rows.len();
        let mut i: usize = 0;
        while i < n
            invariant
                i <= n,
                n == self.rows@.len(),
                n == old(self).rows@.len(),
                forall|j: int|
                    0 <= j < n ==> i32::MIN <= (#[trigger] old(self).rows@[j]).value.point.x + x
                        <= i32::MAX && i32::MIN <= old(self).rows@[j].label.x + x <= i32::MAX,
                forall|j: int|
                    0 <= j < i ==> #[trigger] self.rows@[j] == old(self).rows@[j].offset(x as int),
                forall|j: int| i <= j < n ==> #[trigger] self.rows@[j] == old(self).rows@[j],
            decreases n - i,
        {
            let r = self.rows[i];
            assert(r == old(self).rows@[i as int]);
            self.rows.set(
                i,
                GameMetricsRow {
                    value: MetricSnips {
                        point: Point::new(r.value.point.x + x, r.value.point.y),
                        max_value: r.value.max_value,
                        right_aligned: r.value.right_aligned,
                    },
                    label: Point::new(r.label.x + x, r.label.y),
                    metric: r.metric,
                    label_width: r.label_width,
                    value_width: r.value_width,
                },
            );
            i = i + 1;
        }
    }

    /// The width of the table: that of its widest row.
    pub fn width(&self) -> (width: u32)
        requires
            self.rows@.len() > 0,
        ensures
            width == widest(self.rows@, self.rows@.len() as int),
    {
        let n: usize = self.rows.len();
        let mut width: u32 = 0;
        let mut i: usize = 0;
        while i < n
            invariant
                i <= n,
                n == self.rows@.len(),
                width == widest(self.rows@, i as int),
            decreases n - i,
        {
            let w: u32 = self.rows[i].width();
            if w > width {
                width = w;
            }
            i = i + 1;
        }
        width
    }
}

/// The height of the metrics from a place on is not negative, and grows
/// towards the first place.
pub proof fn lemma_stacked_bounds(sizes: Seq<MetricSize>, low: int, high: int)
    requires
        0 <= low <= high <= sizes.len(),
    ensures
        0 <= stacked(sizes, high) <= stacked(sizes, low),
        high < sizes.len() ==> stacked(sizes, high) == sizes[high].height() + stacked(
            sizes,
            high + 1,
        ),
    decreases sizes.len() - low,
{
    lemma_stacked_not_negative(sizes, high);
    if low < high {
        lemma_stacked_bounds(sizes, low + 1, high);
    }
}

/// The height of the metrics from a place on is not negative.
pub proof fn lemma_stacked_not_negative(sizes: Seq<MetricSize>, from: int)
    ensures
        0 <= stacked(sizes, from),
    decreases sizes.len() - from,
{
    if 0 <= from < sizes.len() {
        lemma_stacked_not_negative(sizes, from + 1);
    }
}

/// No row among the first `n` is wider than the widest of them.
pub proof fn lemma_widest_bounds(rows: Seq<GameMetricsRow>, n: int, i: int)
    requires
        0 <= i < n <= rows.len(),
    ensures
        rows[i].spec_width() <= widest(rows, n),
        rows[i].label_width <= widest(rows, n),
        rows[i].value_width <= widest(rows, n),
    decreases n,
{
    if i < n - 1 {
        lemma_widest_bounds(rows, n - 1, i);
    }
}

} // verus!
