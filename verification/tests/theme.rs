use tetris_core::game::tetromino::TetrominoShape;
use tetris_core::geometry::Rect;
use tetris_core::particles::meta::ParticleSprite;
use tetris_core::game::geometry::Point;
use tetris_core::theme::modern::{GameMetricType, GameMetricsTable, MetricSize, MetricSnips};
use tetris_core::theme::ThemeName;

#[test]
fn sprites_lie_on_the_sheet_row_by_row() {
    assert_eq!(ParticleSprite::Circle01.snip(), Some(Rect::new(0, 0, 512, 512)));
    assert_eq!(ParticleSprite::Dirt02.snip(), Some(Rect::new(3072, 0, 512, 512)));
    assert_eq!(ParticleSprite::Dirt03.snip(), Some(Rect::new(0, 512, 512, 512)));
    assert_eq!(ParticleSprite::Light03.snip(), Some(Rect::new(3072, 512, 512, 512)));
    assert_eq!(ParticleSprite::Smoke10.snip(), Some(Rect::new(1536, 2048, 512, 512)));
    assert_eq!(ParticleSprite::Twirl02.snip(), Some(Rect::new(3072, 3072, 512, 512)));
}

#[test]
fn the_last_sprite_stands_at_the_end_of_the_top_row() {
    assert_eq!(ParticleSprite::Twirl03.snip(), Some(Rect::new(3584, 0, 512, 512)));
}

#[test]
fn a_piece_is_not_on_the_sheet() {
    for sprite in ParticleSprite::tetrominos(ThemeName::Modern) {
        assert_eq!(sprite.snip(), None);
    }
    assert_eq!(
        ParticleSprite::tetrominos(ThemeName::Nes)[2],
        ParticleSprite::Tetromino(ThemeName::Nes, TetrominoShape::T)
    );
    assert_eq!(
        ParticleSprite::tetrominos(ThemeName::Snes)[6],
        ParticleSprite::Tetromino(ThemeName::Snes, TetrominoShape::L)
    );
}

#[test]
fn no_two_sprites_share_a_rectangle() {
    let mut seen = Vec::new();
    for sprite in ParticleSprite::stars().iter().chain(ParticleSprite::hollow_circles().iter()) {
        let rect = sprite.snip().unwrap();
        assert!(!seen.contains(&rect));
        seen.push(rect);
    }
    assert_eq!(seen.len(), 13);
    assert_eq!(ParticleSprite::stars()[0], ParticleSprite::Star01);
    assert_eq!(ParticleSprite::stars()[8].snip(), Some(Rect::new(1024, 3072, 512, 512)));
    assert_eq!(ParticleSprite::hollow_circles()[3], ParticleSprite::Circle04);
}

#[test]
fn metrics_have_labels() {
    assert_eq!(GameMetricType::Score.label(), "SCORE");
    assert_eq!(GameMetricType::Level.label(), "LEVEL");
    assert_eq!(GameMetricType::Lines.label(), "LINES");
}

fn size(metric: GameMetricType, max_value: u32, value: (u32, u32), label: (u32, u32)) -> MetricSize {
    MetricSize {
        metric,
        max_value,
        value_width: value.0,
        value_height: value.1,
        label_width: label.0,
        label_height: label.1,
    }
}

fn two_metrics() -> GameMetricsTable {
    GameMetricsTable::new(
        400,
        &[
            size(GameMetricType::Level, 999, (30, 20), (50, 10)),
            size(GameMetricType::Lines, 999, (40, 22), (45, 12)),
        ],
    )
}

#[test]
fn metrics_stand_on_one_another_from_the_bottom_up() {
    let table = two_metrics();
    assert_eq!(table.rows.len(), 2);
    let lines = table.rows[0];
    assert_eq!(lines.metric, GameMetricType::Lines);
    assert_eq!(lines.value, MetricSnips { point: Point::new(0, 378), max_value: 999, right_aligned: false });
    assert_eq!(lines.label, Point::new(0, 364));
    assert_eq!((lines.value_width, lines.label_width), (40, 45));
    assert_eq!(lines.width(), 45);
    let level = table.rows[1];
    assert_eq!(level.metric, GameMetricType::Level);
    assert_eq!(level.value.point, Point::new(0, 344));
    assert_eq!(level.label, Point::new(0, 332));
    assert_eq!(level.width(), 50);
    assert_eq!(table.width(), 50);
}

#[test]
fn an_empty_table_has_no_rows() {
    assert!(GameMetricsTable::new(400, &[]).rows.is_empty());
}

#[test]
fn a_table_is_right_aligned_at_its_width() {
    let table = two_metrics().into_right_aligned();
    assert_eq!(table.rows.len(), 2);
    assert_eq!(table.rows[0].value, MetricSnips { point: Point::new(50, 378), max_value: 999, right_aligned: true });
    assert_eq!(table.rows[0].label, Point::new(5, 364));
    assert_eq!(table.rows[1].value.point, Point::new(50, 344));
    assert_eq!(table.rows[1].label, Point::new(0, 332));
    assert_eq!(table.width(), 50);
}

#[test]
fn a_table_moves_sideways() {
    let mut table = two_metrics();
    table.offset_x(120);
    assert_eq!(table.rows[0].value.point, Point::new(120, 378));
    assert_eq!(table.rows[0].label, Point::new(120, 364));
    assert_eq!(table.rows[1].label, Point::new(120, 332));
    table.offset_x(-20);
    assert_eq!(table.rows[1].value.point, Point::new(100, 344));
    assert_eq!(table.rows[1].value.max_value, 999);
}

#[test]
fn a_table_may_reach_above_the_field() {
    let table = GameMetricsTable::new(10, &[size(GameMetricType::Score, 999_999, (90, 20), (60, 20))]);
    assert_eq!(table.rows[0].value.point, Point::new(0, -10));
    assert_eq!(table.rows[0].label, Point::new(0, -32));
    assert_eq!(table.width(), 90);
}
