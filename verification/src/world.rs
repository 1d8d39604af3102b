//! The scene: an ordered list of objects and at most one point light,
//! with ray resolution to a final color.
use crate::color::{c_new, Color};
use crate::light::{lighting, lighting_ok, spec_lighting, PointLight};
use crate::number::{Number, SCALE};
use crate::objects::{
    find_hit, find_many_intersections, many_intersect_ok, obj_material, obj_normal_ok,
    spec_many_intersections, spec_prepare, ComputationResult, Intersection, Object3D,
};
use crate::ray::{ray_position, Ray};
use crate::tuple::{pt_sub, Point};
use crate::Error;
use vstd::prelude::*;
use vstd::multiset::Multiset;
use vstd::seq_lib::group_to_multiset_ensures;

verus! {

/// A record is a visible-hit candidate with the smallest non-negative
/// parameter among the records of `s`.
pub open spec fn is_min_hit(s: Seq<Intersection>, h: Intersection) -> bool {
    &&& exists|i: int| 0 <= i < s.len() && s[i] == h
    &&& h.t@ >= 0
    &&& forall|i: int| 0 <= i < s.len() && #[trigger] s[i].t@ >= 0 ==> h.t@ <= s[i].t@
}

/// Every record of `s` lies behind the ray's origin.
pub open spec fn no_visible_hit(s: Seq<Intersection>) -> bool {
    forall|i: int| 0 <= i < s.len() ==> #[trigger] s[i].t@ < 0
}

/// The secondary ray cast from the light toward a point; the point itself
/// sits at parameter one.
pub open spec fn shadow_ray(light: PointLight, pt: Point) -> Ray {
    Ray { origin: light.position, direction: pt_sub(pt, light.position) }
}

/// Whether a point is shadowed: some object stands strictly between the
/// light and the point, that is, some intersection of the shadow ray has a
/// parameter in `[0, 1)`.
pub open spec fn spec_is_shadowed(objs: Seq<Object3D>, light: PointLight, pt: Point) -> bool {
    let all = spec_many_intersections(shadow_ray(light, pt), objs, objs.len());
    exists|i: int| 0 <= i < all.len() && #[trigger] all[i].t@ >= 0 && all[i].t@ < SCALE as int
}

/// The color a shading record resolves to: the Phong model with the hit
/// object's material, evaluated at the nudged point, gated by the shadow
/// test there.
pub open spec fn spec_shade_hit(
    objs: Seq<Object3D>,
    light: PointLight,
    c: ComputationResult,
) -> Color {
    spec_lighting(
        obj_material(c.object),
        c.object,
        light,
        c.over_point,
        c.eye_dir,
        c.normal,
        spec_is_shadowed(objs, light, c.over_point),
    )
}

/// Whether shading a record succeeds: the shadow ray reaches every object
/// and the material's pattern (if any) can be evaluated.
pub open spec fn shade_hit_ok(
    objs: Seq<Object3D>,
    light: PointLight,
    c: ComputationResult,
) -> bool {
    &&& many_intersect_ok(shadow_ray(light, c.over_point), objs)
    &&& lighting_ok(obj_material(c.object), c.object, c.over_point)
}

/// Whether resolving one visible hit of a ray succeeds end to end.
pub open spec fn hit_chain_ok(
    objs: Seq<Object3D>,
    light: PointLight,
    h: Intersection,
) -> bool {
    &&& obj_normal_ok(h.partner, ray_position(h.ray, h.t@))
    &&& shade_hit_ok(objs, light, spec_prepare(h))
}

/// A scene: objects in insertion order and at most one light.
#[derive(Debug)]
pub struct World {
    pub objects: Vec<Object3D>,
    pub light: Option<PointLight>,
}

impl World {
    /// An empty scene without a light.
    pub fn new() -> (r: World)
        ensures
            r.objects@.len() == 0,
            r.light is None,
    {
        World { objects: Vec::new(), light: None }
    }

    /// Whether the scene holds an object structurally equal to the given
    /// one.
    pub fn contains_object(&self, an_object: &Object3D) -> (r: bool)
        ensures
            r == self.objects@.contains(*an_object),
    {
        let mut i: usize = 0;
        while i < self.objects.len()
            invariant
                0 <= i <= self.objects@.len(),
                forall|k: int| 0 <= k < i ==> self.objects@[k] != *an_object,
            decreases self.objects@.len() - i,
        {
            if self.objects[i].equals(an_object) {
                return true;
            }
            i = i + 1;
        }
        false
    }

    /// Whether the scene's light equals the given one.
    pub fn contains_light(&self, light: &PointLight) -> (r: bool)
        ensures
            r == (self.light matches Some(l) && l == *light),
    {
        match &self.light {
            Some(l) => l == light,
            None => false,
        }
    }

    /// Sets the scene's single light.
    pub fn set_light(&mut self, light: PointLight)
        ensures
            final(self).light == Some(light),
            final(self).objects == old(self).objects,
    {
        self.light = Some(light);
    }

    /// Appends an object to the scene.
    pub fn add_object(&mut self, object: Object3D)
        ensures
            final(self).objects@ == old(self).objects@.push(object),
            final(self).light == old(self).light,
    {
        self.objects.push(object);
    }

    /// The scene's objects, in insertion order.
    pub fn get_objects(&self) -> (r: &Vec<Object3D>)
        ensures
            r == &self.objects,
    {
        &self.objects
    }

    /// All intersections of a ray with the scene, sorted by parameter
    /// ascending; rejected when the ray cannot be carried into some
    /// object's space.
    pub fn find_intersections(&self, ray: &Ray) -> (r: Result<Vec<Intersection>, Error>)
        ensures
            r is Ok <==> many_intersect_ok(*ray, self.objects@),
            r matches Ok(v) ==> {
                let all = spec_many_intersections(*ray, self.objects@, self.objects@.len());
                &&& v@.len() == all.len()
                &&& v@.to_multiset() == all.to_multiset()
                &&& (forall|x: Intersection| v@.contains(x) <==> all.contains(x))
                &&& (forall|i: int, j: int| 0 <= i <= j < v@.len() ==> v@[i].t@ <= v@[j].t@)
            },
    {
        let intersections = match find_many_intersections(ray, &self.objects) {
            Ok(v) => v,
            Err(e) => {
                return Err(e);
            },
        };
        Ok(sort_intersections(intersections))
    }

    /// Whether a point is shadowed from the scene's light; without a light
    /// nothing is ever shadowed. Rejected when the shadow ray cannot be
    /// carried into some object's space.
    #[verifier::rlimit(100)]
    pub fn is_shadowed(&self, pt: Point) -> (r: Result<bool, Error>)
        ensures
            r is Ok <==> (self.light is None || many_intersect_ok(
                shadow_ray(self.light->Some_0, pt),
                self.objects@,
            )),
            r matches Ok(b) ==> b == (self.light matches Some(l) && spec_is_shadowed(
                self.objects@,
                l,
                pt,
            )),
    {
        let light = match &self.light {
            Some(l) => *l,
            None => {
                return Ok(false);
            },
        };
        let origin = light.position;
        let direction = pt.sub(origin);
        let ray = Ray::new(origin, direction);
        let intersections = match self.find_intersections(&ray) {
            Ok(v) => v,
            Err(e) => {
                return Err(e);
            },
        };
        let ghost all = spec_many_intersections(ray, self.objects@, self.objects@.len());
        let ghost sorted_view = intersections@;
        match find_hit(intersections) {
            Some(hit) => {
                proof {
                    lemma_min_hit_transfers(sorted_view, all, hit);
                    if hit.t@ < SCALE as int {
                        let i = choose|i: int| 0 <= i < all.len() && all[i] == hit;
                        assert(all[i].t@ >= 0 && all[i].t@ < SCALE as int);
                    } else {
                        assert forall|i: int|
                            0 <= i < all.len() && #[trigger] all[i].t@ >= 0 implies !(all[i].t@
                            < SCALE as int) by {
                            assert(hit.t@ <= all[i].t@);
                        }
                    }
                }
                Ok(hit.parameter().lt(Number::one()))
            },
            None => {
                proof {
                    lemma_all_behind_transfers(sorted_view, all);
                }
                Ok(false)
            },
        }
    }

    /// Shades one prepared hit: the shadow test at the nudged point, then
    /// the Phong model with the hit object's material.
    pub fn shade_hit(&self, comp_res: &ComputationResult) -> (r: Result<Color, Error>)
        requires
            self.light is Some,
        ensures
            r is Ok <==> shade_hit_ok(self.objects@, self.light->Some_0, *comp_res),
            r matches Ok(c) ==> c == spec_shade_hit(self.objects@, self.light->Some_0, *comp_res),
    {
        let is_shadowed = match self.is_shadowed(comp_res.over_point) {
            Ok(b) => b,
            Err(e) => {
                return Err(e);
            },
        };
        let light = match &self.light {
            Some(l) => *l,
            None => {
                proof {
                    assert(false);
                }
                return Err(Error::new("World has no light"));
            },
        };
        lighting(
            comp_res.object.material(),
            &comp_res.object,
            &light,
            &comp_res.over_point,
            &comp_res.eye_dir,
            &comp_res.normal,
            is_shadowed,
        )
    }

    /// Resolves a ray to a color: black when nothing visible is hit,
    /// otherwise the shaded nearest hit.
    #[verifier::rlimit(100)]
    pub fn color_at_ray_hit(&self, ray: &Ray) -> (r: Result<Color, Error>)
        requires
            self.light is Some,
        ensures
            r matches Ok(c) ==> {
                let all = spec_many_intersections(*ray, self.objects@, self.objects@.len());
                &&& (no_visible_hit(all) ==> c == c_new(0, 0, 0))
                &&& (!no_visible_hit(all) ==> exists|h: Intersection|
                    is_min_hit(all, h) && c == spec_shade_hit(
                        self.objects@,
                        self.light->Some_0,
                        spec_prepare(h),
                    ))
            },
            (many_intersect_ok(*ray, self.objects@) && (forall|h: Intersection|
                is_min_hit(
                    spec_many_intersections(*ray, self.objects@, self.objects@.len()),
                    h,
                ) ==> hit_chain_ok(self.objects@, self.light->Some_0, h))) ==> r is Ok,
    {
        let intersections = match self.find_intersections(ray) {
            Ok(v) => v,
            Err(e) => {
                return Err(e);
            },
        };
        let ghost all = spec_many_intersections(*ray, self.objects@, self.objects@.len());
        let ghost sorted_view = intersections@;
        match find_hit(intersections) {
            Some(hit) => {
                proof {
                    lemma_min_hit_transfers(sorted_view, all, hit);
                }
                let comp_res = match hit.prepare_computations() {
                    Ok(c) => c,
                    Err(e) => {
                        proof {
                            assert(!hit_chain_ok(self.objects@, self.light->Some_0, hit));
                        }
                        return Err(e);
                    },
                };
                let shaded = self.shade_hit(&comp_res);
                proof {
                    if shaded is Err {
                        assert(!hit_chain_ok(self.objects@, self.light->Some_0, hit));
                    }
                }
                shaded
            },
            None => {
                proof {
                    lemma_all_behind_transfers(sorted_view, all);
                }
                Ok(Color::black())
            },
        }
    }
}

/// When two sequences have the same members and every record of the first
/// lies behind the ray, so does every record of the second.
proof fn lemma_all_behind_transfers(a: Seq<Intersection>, b: Seq<Intersection>)
    requires
        forall|x: Intersection| a.contains(x) <==> b.contains(x),
        no_visible_hit(a),
    ensures
        no_visible_hit(b),
{
    assert forall|i: int| 0 <= i < b.len() implies #[trigger] b[i].t@ < 0 by {
        assert(b.contains(b[i]));
        assert(a.contains(b[i]));
        let j = choose|j: int| 0 <= j < a.len() && a[j] == b[i];
        assert(a[j].t@ < 0);
    }
}

/// A minimal visible hit over a sequence with the same members is a
/// minimal visible hit over the other.
proof fn lemma_min_hit_transfers(a: Seq<Intersection>, b: Seq<Intersection>, h: Intersection)
    requires
        forall|x: Intersection| a.contains(x) <==> b.contains(x),
        is_min_hit(a, h),
    ensures
        is_min_hit(b, h),
{
    assert(a.contains(h)) by {
        let i = choose|i: int| 0 <= i < a.len() && a[i] == h;
        assert(a[i] == h);
    }
    assert(b.contains(h));
    assert(exists|i: int| 0 <= i < b.len() && b[i] == h) by {
        let i = choose|i: int| 0 <= i < b.len() && b[i] == h;
        assert(b[i] == h);
    }
    assert forall|i: int| 0 <= i < b.len() && #[trigger] b[i].t@ >= 0 implies h.t@ <= b[i].t@ by {
        assert(a.contains(b[i]));
        let j = choose|j: int| 0 <= j < a.len() && a[j] == b[i];
        assert(a[j].t@ >= 0);
    }
}

/// Sorts intersection records by parameter ascending (first-seen first on
/// ties), keeping exactly the same records.
fn sort_intersections(list: Vec<Intersection>) -> (r: Vec<Intersection>)
    ensures
        r@.len() == list@.len(),
        r@.to_multiset() == list@.to_multiset(),
        forall|x: Intersection| r@.contains(x) <==> list@.contains(x),
        forall|i: int, j: int| 0 <= i <= j < r@.len() ==> r@[i].t@ <= r@[j].t@,
{
    let mut src = list;
    let mut out: Vec<Intersection> = Vec::new();
    let ghost initial = src@;
    proof {
        broadcast use group_to_multiset_ensures;

        assert(out@.to_multiset() =~= Multiset::empty()) by {
            assert(forall|x: Intersection| !out@.contains(x));
        }
        assert(out@.to_multiset().add(src@.to_multiset()) =~= src@.to_multiset());
    }
    while src.len() > 0
        invariant
            out@.to_multiset().add(src@.to_multiset()) == initial.to_multiset(),
            out@.len() + src@.len() == initial.len(),
            forall|i: int, j: int| 0 <= i <= j < out@.len() ==> out@[i].t@ <= out@[j].t@,
            forall|i: int, j: int|
                0 <= i < out@.len() && 0 <= j < src@.len() ==> out@[i].t@ <= src@[j].t@,
        decreases src@.len(),
    {
        let mut min_idx: usize = 0;
        let mut k: usize = 1;
        while k < src.len()
            invariant
                0 <= min_idx < src@.len(),
                1 <= k <= src@.len(),
                forall|j: int| 0 <= j < k ==> src@[min_idx as int].t@ <= src@[j].t@,
            decreases src@.len() - k,
        {
            if src[k].t.lt(src[min_idx].t) {
                min_idx = k;
            }
            k = k + 1;
        }
        let ghost src_before = src@;
        let ghost out_before = out@;
        let e = src.remove(min_idx);
        out.push(e);
        proof {
            broadcast use group_to_multiset_ensures;

            assert(out@.to_multiset().add(src@.to_multiset()) == initial.to_multiset()) by {
                assert(src_before[min_idx as int] == e);
                assert(src_before.contains(e));
                assert(src_before.to_multiset().count(e) > 0);
                assert(out@ == out_before.push(e));
                assert(out@.to_multiset() =~= out_before.to_multiset().insert(e));
                assert(src@.to_multiset() =~= src_before.to_multiset().remove(e));
                assert(out_before.to_multiset().insert(e).add(
                    src_before.to_multiset().remove(e),
                ) =~= out_before.to_multiset().add(src_before.to_multiset()));
            }
            assert forall|j: int| 0 <= j < src@.len() implies e.t@ <= src@[j].t@ by {
                if j < min_idx {
                    assert(src@[j] == src_before[j]);
                } else {
                    assert(src@[j] == src_before[j + 1]);
                }
            }
        }
    }
    proof {
        broadcast use group_to_multiset_ensures;

        assert(out@.to_multiset() == initial.to_multiset());
        assert forall|x: Intersection| out@.contains(x) <==> initial.contains(x) by {
            assert(out@.contains(x) <==> out@.to_multiset().count(x) > 0);
            assert(initial.contains(x) <==> initial.to_multiset().count(x) > 0);
        }
        assert(out@.len() == out@.to_multiset().len());
        assert(initial.len() == initial.to_multiset().len());
    }
    out
}

} // verus!
