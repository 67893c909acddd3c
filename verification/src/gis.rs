//! Loading the basemap: which file formats are accepted, how a GeoJSON
//! feature collection is read, and which of its features become areas of
//! the simulation.
use vstd::prelude::*;
use vstd::string::*;

verus! {

/// A format the basemap can be read from.
#[derive(Clone, Copy, PartialEq, Eq, Structural, Debug)]
pub enum BasemapFormat {
    GeoJson,
}

/// Why a basemap cannot be loaded.
#[derive(Clone, Copy, PartialEq, Eq, Structural, Debug)]
pub enum BasemapError {
    /// The basemap path has no extension.
    NoExtension,
    /// The basemap is a shapefile, which is not read yet.
    ShapefilesNotImplemented,
    /// The extension is none of the known ones.
    InvalidFormat,
    /// The geometry of this named feature cannot be converted.
    Unconvertible { feature: usize },
    /// This named feature is a multipolygon without any polygon.
    EmptyMultiPolygon { feature: usize },
    /// This named feature is neither a polygon nor a multipolygon.
    InvalidGeometry { feature: usize },
    /// The text is not a GeoJSON feature collection.
    NotAFeatureCollection,
}

/// The format chosen for an extension (`None`: the path has none).
pub open spec fn spec_basemap_format(extension: Option<Seq<char>>) -> Result<BasemapFormat, BasemapError> {
    match extension {
        None => Err(BasemapError::NoExtension),
        Some(e) => if e == "shx"@ || e == "dbf"@ {
            Err(BasemapError::ShapefilesNotImplemented)
        } else if e == "geojson"@ || e == "json"@ {
            Ok(BasemapFormat::GeoJson)
        } else {
            Err(BasemapError::InvalidFormat)
        },
    }
}

pub open spec fn opt_view(s: Option<String>) -> Option<Seq<char>> {
    match s {
        Some(t) => Some(t@),
        None => None,
    }
}

/// Chooses how to read the basemap from the extension of its path: only
/// `geojson` and `json` are read (as GeoJSON); `shx` and `dbf` are
/// shapefiles, not read yet; a missing extension and any other one are refused.
pub fn basemap_format(extension: &Option<String>) -> (r: Result<BasemapFormat, BasemapError>)
    ensures
        r == spec_basemap_format(opt_view(*extension)),
        (*extension).is_none() <==> r == Err::<BasemapFormat, BasemapError>(BasemapError::NoExtension),
        r == Ok::<BasemapFormat, BasemapError>(BasemapFormat::GeoJson) <==> (match *extension {
            Some(e) => e@ == "geojson"@ || e@ == "json"@,
            None => false,
        }),
        r == Err::<BasemapFormat, BasemapError>(BasemapError::ShapefilesNotImplemented) <==> (
        match *extension {
            Some(e) => e@ == "shx"@ || e@ == "dbf"@,
            None => false,
        }),
        r == Err::<BasemapFormat, BasemapError>(BasemapError::InvalidFormat) <==> (
        match *extension {
            Some(e) => e@ != "geojson"@ && e@ != "json"@ && e@ != "shx"@ && e@ != "dbf"@,
            None => false,
        }),
{
    proof {
        reveal_strlit("shx");
        reveal_strlit("dbf");
        reveal_strlit("geojson");
        reveal_strlit("json");
        assert("shx"@ =~= seq!['s', 'h', 'x']);
        assert("dbf"@ =~= seq!['d', 'b', 'f']);
        assert("geojson"@ =~= seq!['g', 'e', 'o', 'j', 's', 'o', 'n']);
        assert("json"@ =~= seq!['j', 's', 'o', 'n']);
    }
    match extension {
        None => Err(BasemapError::NoExtension),
        Some(e) => {
            let shx = String::from_str("shx");
            let dbf = String::from_str("dbf");
            let geojson = String::from_str("geojson");
            let json = String::from_str("json");
            if *e == shx || *e == dbf {
                Err(BasemapError::ShapefilesNotImplemented)
            } else if *e == geojson || *e == json {
                Ok(BasemapFormat::GeoJson)
            } else {
                Err(BasemapError::InvalidFormat)
            }
        },
    }
}

/// The kind of geometry a feature carries.
#[derive(Clone, Copy, PartialEq, Eq, Structural, Debug)]
pub enum GeometryKind {
    /// A polygon.
    Polygon,
    /// A multipolygon made of `parts` polygons.
    MultiPolygon { parts: usize },
    /// Any other geometry.
    Other,
    /// No geometry at all, which cannot be converted to a shape.
    Unconvertible,
}

/// What the loader reads of a feature: the value of its identifying
/// property, if it has one, and the kind of its geometry.
#[derive(Debug)]
pub struct FeatureSummary {
    pub name: Option<String>,
    pub geometry: GeometryKind,
}

/// An area to build: from feature number `feature`, named `name`, whose
/// polygon is the feature's own (`part` is `None`) or the polygon number
/// `part` of its multipolygon.
#[derive(Debug)]
pub struct AreaPlan {
    pub feature: usize,
    pub name: String,
    pub part: Option<usize>,
}

/// The abstract value of an area plan.
pub struct AreaPick {
    pub feature: int,
    pub name: Seq<char>,
    pub part: Option<usize>,
}

pub open spec fn pick_of(a: AreaPlan) -> AreaPick {
    AreaPick { feature: a.feature as int, name: a.name@, part: a.part }
}

/// What the loader reads of a feature: the value of its identifying
/// property, if it has one, and the kind of its geometry.
pub open spec fn summary_view(f: FeatureSummary) -> (Option<Seq<char>>, GeometryKind) {
    (opt_view(f.name), f.geometry)
}

pub open spec fn summaries_view(fs: Seq<FeatureSummary>) -> Seq<(Option<Seq<char>>, GeometryKind)> {
    fs.map_values(|f: FeatureSummary| summary_view(f))
}

/// The features of a GeoJSON text, as the loader reads them (the value of
/// the property `id_feature` written as JSON, and the kind of geometry), in
/// order; `None` when the text is not a GeoJSON feature collection.
pub uninterp spec fn geojson_features(text: Seq<char>, id_feature: Seq<char>) -> Option<
    Seq<(Option<Seq<char>>, GeometryKind)>,
>;

/// Parses `text` with `geojson` (`GeoJson`'s `FromStr`, then
/// `FeatureCollection::try_from`) and reads each feature: `Feature::property`
/// with `id_feature`, written by `serde_json`'s `Display`, and the variant of
/// its geometry value, with the number of polygons of a multipolygon; a
/// feature without geometry is the one that cannot be converted to a shape.
/// The contract names the result `geojson_features` of the two arguments; it
/// does not say which texts parse.
#[verifier::external_body]
pub(crate) fn summarize_geojson(text: &str, id_feature: &str) -> (r: Option<Vec<FeatureSummary>>)
    ensures
        geojson_features(text@, id_feature@) == (match r {
            Some(v) => Some(summaries_view(v@)),
            None => None,
        }),
{
    let fc = geojson::FeatureCollection::try_from(text.parse::<geojson::GeoJson>().ok()?).ok()?;
    Some(fc.features.iter().map(|f| FeatureSummary {
        name: f.property(id_feature).map(|v| v.to_string()),
        geometry: match f.geometry.as_ref().map(|g| &g.value) {
            None => GeometryKind::Unconvertible,
            Some(geojson::GeometryValue::Polygon { .. }) => GeometryKind::Polygon,
            Some(geojson::GeometryValue::MultiPolygon { coordinates }) => GeometryKind::MultiPolygon { parts: coordinates.len() },
            Some(_) => GeometryKind::Other,
        },
    }).collect())
}

/// What one feature, number `idx`, contributes: nothing when it lacks the
/// identifying property, an area when its geometry is a polygon or a
/// non-empty multipolygon (its first polygon), an error otherwise.
pub open spec fn feature_step(f: (Option<Seq<char>>, GeometryKind), idx: int) -> Result<Option<AreaPick>, BasemapError> {
    match f.0 {
        None => Ok(None),
        Some(n) => match f.1 {
            GeometryKind::Unconvertible => Err(BasemapError::Unconvertible { feature: idx as usize }),
            GeometryKind::Polygon => Ok(Some(AreaPick { feature: idx, name: n, part: None })),
            GeometryKind::MultiPolygon { parts } => if parts > 0 {
                Ok(Some(AreaPick { feature: idx, name: n, part: Some(0) }))
            } else {
                Err(BasemapError::EmptyMultiPolygon { feature: idx as usize })
            },
            GeometryKind::Other => Err(BasemapError::InvalidGeometry { feature: idx as usize }),
        },
    }
}

/// The areas built from the features, in order; the first feature that
/// fails decides the error.
pub open spec fn plan_of(fs: Seq<(Option<Seq<char>>, GeometryKind)>) -> Result<Seq<AreaPick>, BasemapError>
    decreases fs.len(),
{
    if fs.len() == 0 {
        Ok(Seq::empty())
    } else {
        match plan_of(fs.drop_last()) {
            Err(e) => Err(e),
            Ok(ps) => match feature_step(fs.last(), fs.len() - 1) {
                Err(e) => Err(e),
                Ok(None) => Ok(ps),
                Ok(Some(p)) => Ok(ps.push(p)),
            },
        }
    }
}

/// Once a prefix of the features fails, all of them fail the same way.
proof fn lemma_plan_error_persists(fs: Seq<(Option<Seq<char>>, GeometryKind)>, i: int, e: BasemapError)
    requires
        0 <= i <= fs.len(),
        plan_of(fs.take(i)) == Err::<Seq<AreaPick>, BasemapError>(e),
    ensures
        plan_of(fs) == Err::<Seq<AreaPick>, BasemapError>(e),
    decreases fs.len(),
{
    if i == fs.len() {
        assert(fs.take(i) =~= fs);
    } else {
        assert(fs.drop_last().take(i) =~= fs.take(i));
        lemma_plan_error_persists(fs.drop_last(), i, e);
    }
}

/// Chooses which features become areas, as the GeoJSON loader does: a
/// feature without the identifying property is skipped; a named polygon
/// becomes an area; a named multipolygon becomes an area of its first
/// polygon; any other named feature stops the loading with an error.
pub fn plan_areas(features: &Vec<FeatureSummary>) -> (r: Result<Vec<AreaPlan>, BasemapError>)
    ensures
        match r {
            Ok(v) => plan_of(summaries_view(features@)) == Ok::<Seq<AreaPick>, BasemapError>(
                v@.map_values(|a: AreaPlan| pick_of(a)),
            ),
            Err(e) => plan_of(summaries_view(features@)) == Err::<Seq<AreaPick>, BasemapError>(e),
        },
{
    let ghost all = summaries_view(features@);
    let mut out: Vec<AreaPlan> = Vec::new();
    let n = features.len();
    let mut i: usize = 0;
    proof {
        assert(all.take(0) =~= Seq::<(Option<Seq<char>>, GeometryKind)>::empty());
        assert(out@.map_values(|a: AreaPlan| pick_of(a)) =~= Seq::<AreaPick>::empty());
    }
    while i < n
        invariant
            n == features@.len(),
            all == summaries_view(features@),
            i <= n,
            plan_of(all.take(i as int)) == Ok::<Seq<AreaPick>, BasemapError>(
                out@.map_values(|a: AreaPlan| pick_of(a)),
            ),
        decreases n - i,
    {
        let f = &features[i];
        let ghost fs = all.take(i + 1);
        proof {
            assert(fs.drop_last() =~= all.take(i as int));
            assert(fs.last() == summary_view(features@[i as int]));
        }
        match &f.name {
            None => {},
            Some(name) => {
                let step: Result<Option<usize>, BasemapError> = match f.geometry {
                    GeometryKind::Unconvertible => Err(BasemapError::Unconvertible { feature: i }),
                    GeometryKind::Polygon => Ok(None),
                    GeometryKind::MultiPolygon { parts } => if parts > 0 {
                        Ok(Some(0))
                    } else {
                        Err(BasemapError::EmptyMultiPolygon { feature: i })
                    },
                    GeometryKind::Other => Err(BasemapError::InvalidGeometry { feature: i }),
                };
                match step {
                    Err(e) => {
                        proof {
                            lemma_plan_error_persists(all, i + 1, e);
                        }
                        return Err(e);
                    },
                    Ok(part) => {
                        let ghost before = out@;
                        out.push(AreaPlan { feature: i, name: name.clone(), part });
                        proof {
                            assert(out@.map_values(|a: AreaPlan| pick_of(a)) =~= before.map_values(
                                |a: AreaPlan| pick_of(a),
                            ).push(pick_of(out@[before.len() as int])));
                        }
                    },
                }
            },
        }
        i = i + 1;
    }
    proof {
        assert(all.take(n as int) =~= all);
    }
    Ok(out)
}

/// Chooses the areas of a basemap from its GeoJSON text, as the loader
/// does: a text that is not a GeoJSON feature collection is refused;
/// otherwise its features are read and chosen as `plan_areas` does.
pub fn plan_basemap(text: &str, id_feature: &str) -> (r: Result<Vec<AreaPlan>, BasemapError>)
    ensures
        match geojson_features(text@, id_feature@) {
            None => r == Err::<Vec<AreaPlan>, BasemapError>(BasemapError::NotAFeatureCollection),
            Some(fs) => match r {
                Ok(v) => plan_of(fs) == Ok::<Seq<AreaPick>, BasemapError>(
                    v@.map_values(|a: AreaPlan| pick_of(a)),
                ),
                Err(e) => plan_of(fs) == Err::<Seq<AreaPick>, BasemapError>(e),
            },
        },
{
    match summarize_geojson(text, id_feature) {
        None => Err(BasemapError::NotAFeatureCollection),
        Some(features) => plan_areas(&features),
    }
}

/// A feature that does not stop the loading: it lacks the identifying
/// property, or it is a polygon or a non-empty multipolygon.
pub open spec fn loadable(f: (Option<Seq<char>>, GeometryKind)) -> bool {
    match f.0 {
        None => true,
        Some(_) => match f.1 {
            GeometryKind::Polygon => true,
            GeometryKind::MultiPolygon { parts } => parts > 0,
            _ => false,
        },
    }
}

/// The number of features that carry the identifying property.
pub open spec fn count_named(fs: Seq<(Option<Seq<char>>, GeometryKind)>) -> nat
    decreases fs.len(),
{
    if fs.len() == 0 {
        0
    } else {
        count_named(fs.drop_last()) + if fs.last().0 is Some { 1nat } else { 0nat }
    }
}

/// The basemap loads exactly when every feature is loadable.
pub proof fn lemma_plan_ok_iff_loadable(fs: Seq<(Option<Seq<char>>, GeometryKind)>)
    ensures
        plan_of(fs) is Ok <==> forall|i: int| 0 <= i < fs.len() ==> loadable(#[trigger] fs[i]),
    decreases fs.len(),
{
    if fs.len() > 0 {
        let d = fs.drop_last();
        lemma_plan_ok_iff_loadable(d);
        assert forall|i: int| 0 <= i < d.len() implies d[i] == fs[i] by {}
        if plan_of(fs) is Ok {
            assert forall|i: int| 0 <= i < fs.len() implies loadable(#[trigger] fs[i]) by {
                if i < d.len() {
                    assert(d[i] == fs[i]);
                }
            }
        }
        if forall|i: int| 0 <= i < fs.len() ==> loadable(#[trigger] fs[i]) {
            assert(loadable(fs[fs.len() - 1]));
            assert forall|i: int| 0 <= i < d.len() implies loadable(#[trigger] d[i]) by {
                assert(loadable(fs[i]));
            }
        }
    }
}

/// A successful load makes one area per named feature, in the order of the
/// features, each carrying the name of the feature it comes from; a
/// multipolygon gives its first polygon.
pub proof fn lemma_plan_areas_follow_features(fs: Seq<(Option<Seq<char>>, GeometryKind)>)
    requires
        plan_of(fs) is Ok,
    ensures
        ({
            let ps = plan_of(fs)->Ok_0;
            &&& ps.len() == count_named(fs)
            &&& forall|k: int| 0 <= k < ps.len() ==> {
                let p = #[trigger] ps[k];
                &&& 0 <= p.feature < fs.len()
                &&& fs[p.feature].0 == Some(p.name)
                &&& p.part == (match fs[p.feature].1 {
                    GeometryKind::MultiPolygon { .. } => Some(0usize),
                    _ => None,
                })
            }
            &&& forall|j: int, k: int| 0 <= j < k < ps.len() ==> #[trigger] ps[j].feature < #[trigger] ps[k].feature
        }),
    decreases fs.len(),
{
    if fs.len() > 0 {
        let d = fs.drop_last();
        lemma_plan_areas_follow_features(d);
        let ps = plan_of(fs)->Ok_0;
        let qs = plan_of(d)->Ok_0;
        assert forall|i: int| 0 <= i < d.len() implies d[i] == fs[i] by {}
        assert forall|k: int| 0 <= k < qs.len() implies (#[trigger] qs[k]).feature < d.len() by {}
    }
}

} // verus!
