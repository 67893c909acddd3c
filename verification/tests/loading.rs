use pheeple::camera::{camera_step, CameraKeys, CameraStep};
use pheeple::gis::{
    basemap_format, plan_areas, plan_basemap, BasemapError, BasemapFormat, FeatureSummary, GeometryKind,
};
use pheeple::settings::{
    basemap_missing_message, call_log_path_parts, cli_outcome, out_dir_parts, CliOutcome, SimSettings,
};

fn ext(s: &str) -> Option<String> {
    Some(s.to_string())
}

fn feature(name: Option<&str>, geometry: GeometryKind) -> FeatureSummary {
    FeatureSummary { name: name.map(|n| n.to_string()), geometry }
}

#[test]
fn basemap_formats() {
    assert_eq!(basemap_format(&None), Err(BasemapError::NoExtension));
    assert_eq!(basemap_format(&ext("shx")), Err(BasemapError::ShapefilesNotImplemented));
    assert_eq!(basemap_format(&ext("dbf")), Err(BasemapError::ShapefilesNotImplemented));
    assert_eq!(basemap_format(&ext("geojson")), Ok(BasemapFormat::GeoJson));
    assert_eq!(basemap_format(&ext("json")), Ok(BasemapFormat::GeoJson));
    assert_eq!(basemap_format(&ext("shp")), Err(BasemapError::InvalidFormat));
    assert_eq!(basemap_format(&ext("GeoJSON")), Err(BasemapError::InvalidFormat));
    assert_eq!(basemap_format(&ext("")), Err(BasemapError::InvalidFormat));
}

#[test]
fn plan_keeps_named_polygons_and_skips_unnamed() {
    let fs = vec![
        feature(Some("\"north\""), GeometryKind::Polygon),
        feature(None, GeometryKind::Other),
        feature(Some("\"south\""), GeometryKind::MultiPolygon { parts: 3 }),
        feature(None, GeometryKind::Unconvertible),
    ];
    let plan = plan_areas(&fs).unwrap();
    assert_eq!(plan.len(), 2);
    assert_eq!(plan[0].feature, 0);
    assert_eq!(plan[0].name, "\"north\"");
    assert_eq!(plan[0].part, None);
    assert_eq!(plan[1].feature, 2);
    assert_eq!(plan[1].name, "\"south\"");
    assert_eq!(plan[1].part, Some(0));
}

#[test]
fn plan_of_no_features_is_empty() {
    assert!(plan_areas(&Vec::new()).unwrap().is_empty());
}

#[test]
fn plan_errors_name_the_first_failing_feature() {
    let fs = vec![
        feature(Some("a"), GeometryKind::Polygon),
        feature(Some("b"), GeometryKind::Other),
        feature(Some("c"), GeometryKind::Unconvertible),
    ];
    assert_eq!(plan_areas(&fs).unwrap_err(), BasemapError::InvalidGeometry { feature: 1 });
    let fs = vec![feature(Some("c"), GeometryKind::Unconvertible)];
    assert_eq!(plan_areas(&fs).unwrap_err(), BasemapError::Unconvertible { feature: 0 });
    let fs = vec![
        feature(None, GeometryKind::Polygon),
        feature(Some("d"), GeometryKind::MultiPolygon { parts: 0 }),
    ];
    assert_eq!(plan_areas(&fs).unwrap_err(), BasemapError::EmptyMultiPolygon { feature: 1 });
}

#[test]
fn default_settings() {
    let s = SimSettings::default();
    assert_eq!(s.half_day_duration_secs, 5);
    assert_eq!(s.towers_per_area, 3);
    assert_eq!(s.call_chance, 1);
    assert_eq!(s.max_pheeple_per_area, 300);
}

#[test]
fn output_directory_choice() {
    assert_eq!(out_dir_parts(ext("/data/out"), ext("/home/x")), Some(vec!["/data/out".to_string()]));
    assert_eq!(out_dir_parts(ext("/data/out"), None), Some(vec!["/data/out".to_string()]));
    assert_eq!(
        out_dir_parts(None, ext("/home/x")),
        Some(vec!["/home/x".to_string(), "outputs".to_string()])
    );
    assert_eq!(out_dir_parts(None, None), None);
    assert_eq!(
        call_log_path_parts(ext("/data/out"), ext("/home/x")),
        Some(vec!["/data/out".to_string(), "call_records.csv".to_string()])
    );
    assert_eq!(
        call_log_path_parts(ext("/data/out"), None),
        Some(vec!["/data/out".to_string(), "call_records.csv".to_string()])
    );
    assert_eq!(
        call_log_path_parts(None, ext("/home/x")),
        Some(vec!["/home/x".to_string(), "outputs".to_string(), "call_records.csv".to_string()])
    );
    assert_eq!(call_log_path_parts(None, None), None);
}

#[test]
fn command_line_outcomes() {
    assert_eq!(cli_outcome(true, false), CliOutcome::ShowHelp);
    assert_eq!(cli_outcome(true, true), CliOutcome::ShowHelp);
    assert_eq!(cli_outcome(false, false), CliOutcome::BasemapMissing);
    assert_eq!(cli_outcome(false, true), CliOutcome::Run);
    assert_eq!(basemap_missing_message(), "Basemap path does not exist");
}

#[test]
fn camera_keys() {
    let none = CameraKeys { up: false, down: false, left: false, right: false, shrink: false, grow: false };
    assert_eq!(camera_step(none), CameraStep { x: 0, y: 0, scale: 0 });
    let k = CameraKeys { up: true, right: true, shrink: true, ..none };
    assert_eq!(camera_step(k), CameraStep { x: 1, y: 1, scale: -1 });
    let k = CameraKeys { down: true, left: true, grow: true, ..none };
    assert_eq!(camera_step(k), CameraStep { x: -1, y: -1, scale: 1 });
    let all = CameraKeys { up: true, down: true, left: true, right: true, shrink: true, grow: true };
    assert_eq!(camera_step(all), CameraStep { x: 0, y: 0, scale: 0 });
}

const SQUARE: &str = "[[[0,0],[1,0],[1,1],[0,1],[0,0]]]";

fn collection(features: &[String]) -> String {
    format!("{{\"type\":\"FeatureCollection\",\"features\":[{}]}}", features.join(","))
}

fn geo_feature(properties: &str, geometry: &str) -> String {
    format!("{{\"type\":\"Feature\",\"properties\":{properties},\"geometry\":{geometry}}}")
}

#[test]
fn basemap_text_gives_named_areas() {
    let text = collection(&[
        geo_feature("{\"name\":\"north\"}", &format!("{{\"type\":\"Polygon\",\"coordinates\":{SQUARE}}}")),
        geo_feature("{}", "{\"type\":\"Point\",\"coordinates\":[0,0]}"),
        geo_feature(
            "{\"name\":7}",
            &format!("{{\"type\":\"MultiPolygon\",\"coordinates\":[{SQUARE},{SQUARE}]}}"),
        ),
    ]);
    let plan = plan_basemap(&text, "name").unwrap();
    assert_eq!(plan.len(), 2);
    assert_eq!(plan[0].feature, 0);
    assert_eq!(plan[0].name, "\"north\"");
    assert_eq!(plan[0].part, None);
    assert_eq!(plan[1].feature, 2);
    assert_eq!(plan[1].name, "7");
    assert_eq!(plan[1].part, Some(0));
    let by_other_key = plan_basemap(&text, "id").unwrap();
    assert!(by_other_key.is_empty());
}

#[test]
fn basemap_text_errors() {
    let point = collection(&[geo_feature("{\"name\":\"a\"}", "{\"type\":\"Point\",\"coordinates\":[0,0]}")]);
    assert_eq!(plan_basemap(&point, "name").unwrap_err(), BasemapError::InvalidGeometry { feature: 0 });
    let none = collection(&[geo_feature("{\"name\":\"a\"}", "null")]);
    assert_eq!(plan_basemap(&none, "name").unwrap_err(), BasemapError::Unconvertible { feature: 0 });
    let empty = collection(&[
        geo_feature("{}", "null"),
        geo_feature("{\"name\":\"b\"}", "{\"type\":\"MultiPolygon\",\"coordinates\":[]}"),
    ]);
    assert_eq!(plan_basemap(&empty, "name").unwrap_err(), BasemapError::EmptyMultiPolygon { feature: 1 });
    assert_eq!(plan_basemap("nonsense", "name").unwrap_err(), BasemapError::NotAFeatureCollection);
    let single = geo_feature("{\"name\":\"a\"}", &format!("{{\"type\":\"Polygon\",\"coordinates\":{SQUARE}}}"));
    assert_eq!(plan_basemap(&single, "name").unwrap_err(), BasemapError::NotAFeatureCollection);
    assert!(plan_basemap(&collection(&[]), "name").unwrap().is_empty());
}
