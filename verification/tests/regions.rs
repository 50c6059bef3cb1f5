use ratios::app::App;
use ratios::layout::Area;
use ratios::number::Number;
use ratios::value::Value;

fn engine(count: usize) -> App {
    let values = (0..count)
        .map(|_| Value { name: None, value: Number::from_bits(1.0f64.to_bits()), text: "1".to_string() })
        .collect();
    App::new(values).unwrap()
}

#[test]
fn layout_has_a_region_for_each_field() {
    for count in 1..6 {
        let app = engine(count);
        let body = Area { x: 0, y: 0, width: 80, height: 3 };
        let regions = app.build_layout(body);
        assert_eq!(regions.len(), count);
        for region in regions {
            assert_eq!(region.y, 0);
            assert_eq!(region.height, 3);
        }
    }
}

#[test]
fn layout_keeps_rows_of_the_body() {
    let app = engine(3);
    let regions = app.build_layout(Area { x: 5, y: 7, width: 61, height: 2 });
    assert_eq!(regions.len(), 3);
    for region in &regions {
        assert_eq!(region.y, 7);
        assert_eq!(region.height, 2);
        assert!(region.x >= 5);
        assert!(region.x + region.width <= 66);
    }
}

#[test]
fn layout_splits_equally() {
    let app = engine(3);
    let regions = app.build_layout(Area { x: 0, y: 0, width: 90, height: 3 });
    assert_eq!(
        regions,
        vec![
            Area { x: 0, y: 0, width: 30, height: 3 },
            Area { x: 30, y: 0, width: 30, height: 3 },
            Area { x: 60, y: 0, width: 30, height: 3 },
        ]
    );
    let app = engine(2);
    let regions = app.build_layout(Area { x: 10, y: 4, width: 40, height: 1 });
    assert_eq!(
        regions,
        vec![Area { x: 10, y: 4, width: 20, height: 1 }, Area { x: 30, y: 4, width: 20, height: 1 }]
    );
}

#[test]
fn layout_of_one_field_is_the_body() {
    let app = engine(1);
    let body = Area { x: 2, y: 3, width: 17, height: 3 };
    assert_eq!(app.build_layout(body), vec![body]);
}

#[test]
fn layout_of_an_empty_body_is_empty_regions() {
    let app = engine(2);
    let regions = app.build_layout(Area { x: 0, y: 0, width: 0, height: 0 });
    assert_eq!(regions.len(), 2);
    for region in regions {
        assert_eq!(region.width, 0);
        assert_eq!(region.height, 0);
    }
}
