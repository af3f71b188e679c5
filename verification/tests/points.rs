use aths_server::controllers::iaaf_points::{
    bad_points_query_reply, load_page_text, points_already_loaded, points_query_valid,
};
use aths_server::db_models::iaaf_points::{Category, Points};
use aths_server::routes::iaaf_points::{
    points_exist_reply, read_error_reply, split_columns, PointsInsert,
};

fn row(points: i32, gender: &str, category: &str, event: &str, mark: f64) -> PointsInsert {
    PointsInsert {
        points,
        gender: gender.to_string(),
        category: category.to_string(),
        event: event.to_string(),
        mark_bits: mark.to_bits(),
    }
}

#[test]
fn load_threshold() {
    assert!(!points_already_loaded(0));
    assert!(!points_already_loaded(200000));
    assert!(points_already_loaded(200001));
    assert!(!points_already_loaded(-5));
    assert_eq!(load_page_text(200000), "Success");
    assert_eq!(load_page_text(250000), "Records already exist.");
}

#[test]
fn exactly_one_search_key() {
    assert!(points_query_valid(true, false));
    assert!(points_query_valid(false, true));
    assert!(!points_query_valid(true, true));
    assert!(!points_query_valid(false, false));
    let r = bad_points_query_reply();
    assert_eq!(r.status, 404);
    assert_eq!(r.body, vec![("status".to_string(), "Bad Request".to_string())]);
}

#[test]
fn load_replies() {
    let r = points_exist_reply();
    assert_eq!(r.status, 400);
    assert_eq!(r.body, vec![("Message".to_string(), "Points Already Exists".to_string())]);
    let e = read_error_reply("No such file or directory (os error 2)");
    assert_eq!(e.status, 200);
    assert_eq!(
        e.body,
        vec![("Message".to_string(), "Error: No such file or directory (os error 2)".to_string())]
    );
}

#[test]
fn columns_keep_rows_in_order() {
    let rows = vec![
        row(1200, "men", "outdoor", "100m", 9.58),
        row(950, "women", "indoor", "60m", 7.30),
        row(0, "men", "outdoor", "HJ", 1.10),
    ];
    let c = split_columns(&rows);
    assert_eq!(c.points, vec![1200, 950, 0]);
    assert_eq!(c.genders, vec!["men", "women", "men"]);
    assert_eq!(c.categories, vec!["outdoor", "indoor", "outdoor"]);
    assert_eq!(c.events, vec!["100m", "60m", "HJ"]);
    let marks: Vec<f64> = c.mark_bits.iter().map(|b| f64::from_bits(*b)).collect();
    assert_eq!(marks, vec![9.58, 7.30, 1.10]);
}

#[test]
fn columns_of_nothing() {
    let c = split_columns(&Vec::new());
    assert!(c.points.is_empty() && c.genders.is_empty() && c.mark_bits.is_empty());
}

#[test]
fn categories() {
    assert_ne!(Category::Indoor, Category::Outdoor);
}

#[test]
fn points_row_new() {
    let p = Points::new(1000, "men".into(), "outdoor".into(), "100m".into(), 10.5f32.to_bits(), "".into());
    assert_eq!(p.points, 1000);
    assert_eq!(f32::from_bits(p.mark_bits), 10.5);
    assert_eq!(p.event, "100m");
    assert_eq!(p.clone(), p);
    assert_eq!(Points::default().points, 0);
}
