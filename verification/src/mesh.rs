//! Procedural tessellation of a wireframe sphere.
//!
//! The sphere is sampled on a latitude/longitude grid that excludes the
//! poles: ring `lat` lies at polar angle `(lat + 1) / (lat_count + 1)` of a
//! half turn, and meridian `lon` at azimuth `lon / lon_count` of a full turn.
//! A vertex is recorded as its grid coordinates together with its emission
//! rank; the backend maps the coordinates to a floating-point position on the
//! unit sphere and uses the rank to drive a reveal animation.
//!
//! The mesh is drawn as a line list: consecutive index pairs are independent
//! segments. First come the meridian arcs — for each meridian, segments
//! between vertically adjacent samples — then the latitude rings, each closed
//! by one duplicate vertex at azimuth zero so that the wrap-around segment
//! needs no modular index arithmetic.

use vstd::prelude::*;

use vstd::arithmetic::div_mod::lemma_fundamental_div_mod;
use vstd::arithmetic::div_mod::lemma_mod_bound;

verus! {

/// One vertex of the wireframe, by grid coordinates on the sphere.
///
/// `lat` selects the ring (polar angle `(lat + 1) / (lat_count + 1)` of a
/// half turn), `lon` the meridian (azimuth `lon / lon_count` of a full turn),
/// and `order` is the rank at which the vertex was emitted, a per-vertex
/// scalar with no geometric meaning.
#[derive(Clone, Copy, Debug, PartialEq, Eq, Structural)]
pub struct SphereVertex {
    pub lat: u32,
    pub lon: u32,
    pub order: u32,
}

/// A vertex list and a line-list index buffer over it.
#[derive(Debug, PartialEq)]
pub struct Mesh {
    pub vertices: Vec<SphereVertex>,
    pub indices: Vec<u16>,
}

/// Inputs on which the mesher emits nothing at all.
pub open spec fn degenerate(lat_count: u32, lon_count: u32) -> bool {
    lat_count < 3 || lon_count < 3
}

/// Vertices emitted for the meridian arcs: one per grid point.
pub open spec fn meridian_vertex_count(lat_count: int, lon_count: int) -> int {
    lon_count * lat_count
}

/// All vertices: the meridian grid, then one ring of `lon_count + 1` samples
/// (the last a closing duplicate) per latitude.
pub open spec fn total_vertex_count(lat_count: int, lon_count: int) -> int {
    lon_count * lat_count + lat_count * (lon_count + 1)
}

/// Indices emitted for the meridian arcs: `lat_count - 1` segments per
/// meridian, two indices each.
pub open spec fn meridian_index_count(lat_count: int, lon_count: int) -> int {
    2 * (lon_count * (lat_count - 1))
}

/// All indices: the meridian segments, then `lon_count` segments per ring.
pub open spec fn total_index_count(lat_count: int, lon_count: int) -> int {
    meridian_index_count(lat_count, lon_count) + 2 * (lat_count * lon_count)
}

/// Position, in the vertex list, of sample `lat` of meridian `lon`.
pub open spec fn meridian_slot(lat_count: int, lon: int, lat: int) -> int {
    lon * lat_count + lat
}

/// Position, in the vertex list, of sample `j` of ring `lat`.
pub open spec fn ring_slot(lat_count: int, lon_count: int, lat: int, j: int) -> int {
    lon_count * lat_count + lat * (lon_count + 1) + j
}

/// Longitude of sample `j` of a ring: the samples in order, then azimuth
/// zero again for the closing duplicate.
pub open spec fn ring_lon(lon_count: int, j: int) -> int {
    if j < lon_count {
        j
    } else {
        0
    }
}

/// Position, in the index list, of the first index of the meridian segment
/// that starts at sample `lat` of meridian `lon`.
pub open spec fn meridian_pair_slot(lat_count: int, lon: int, lat: int) -> int {
    2 * (lon * (lat_count - 1) + lat)
}

/// Position, in the index list, of the first index of the ring segment that
/// starts at sample `j` of ring `lat`.
pub open spec fn ring_pair_slot(lat_count: int, lon_count: int, lat: int, j: int) -> int {
    meridian_index_count(lat_count, lon_count) + 2 * (lat * lon_count + j)
}

/// The vertex has exactly these grid coordinates and this emission rank.
pub open spec fn vertex_is(v: SphereVertex, lat: int, lon: int, order: int) -> bool {
    &&& v.lat as int == lat
    &&& v.lon as int == lon
    &&& v.order as int == order
}

/// The vertex list holds, at the meridian slot for `(lon, lat)`, the grid
/// point `(lat, lon)` with its slot as rank.
pub open spec fn mer_vertex_ok(vs: Seq<SphereVertex>, lat_count: int, lon: int, lat: int) -> bool {
    let k = meridian_slot(lat_count, lon, lat);
    &&& 0 <= k < vs.len()
    &&& vertex_is(vs[k], lat, lon, k)
}

/// The vertex list holds, at the ring slot for `(lat, j)`, the grid point at
/// ring `lat` and longitude `ring_lon(j)` with its slot as rank.
pub open spec fn ring_vertex_ok(
    vs: Seq<SphereVertex>,
    lat_count: int,
    lon_count: int,
    lat: int,
    j: int,
) -> bool {
    let k = ring_slot(lat_count, lon_count, lat, j);
    &&& 0 <= k < vs.len()
    &&& vertex_is(vs[k], lat, ring_lon(lon_count, j), k)
}

/// The index list holds, at the meridian pair slot for `(lon, lat)`, the
/// segment from that grid point to the next sample down the meridian.
pub open spec fn mer_pair_ok(is: Seq<u16>, lat_count: int, lon: int, lat: int) -> bool {
    let m = meridian_pair_slot(lat_count, lon, lat);
    let k = meridian_slot(lat_count, lon, lat);
    &&& 0 <= m && m + 1 < is.len()
    &&& is[m] as int == k
    &&& is[m + 1] as int == k + 1
}

/// The index list holds, at the ring pair slot for `(lat, j)`, the segment
/// from that ring sample to the next one around the ring (the last such
/// segment ends on the closing duplicate).
pub open spec fn ring_pair_ok(
    is: Seq<u16>,
    lat_count: int,
    lon_count: int,
    lat: int,
    j: int,
) -> bool {
    let m = ring_pair_slot(lat_count, lon_count, lat, j);
    let k = ring_slot(lat_count, lon_count, lat, j);
    &&& 0 <= m && m + 1 < is.len()
    &&& is[m] as int == k
    &&& is[m + 1] as int == k + 1
}

/// The vertex list of a non-degenerate sphere, pinned slot by slot.
pub open spec fn sphere_vertices_ok(vs: Seq<SphereVertex>, lat_count: int, lon_count: int) -> bool {
    &&& vs.len() == total_vertex_count(lat_count, lon_count)
    &&& forall|lon: int, lat: int|
        0 <= lon < lon_count && 0 <= lat < lat_count ==> #[trigger] mer_vertex_ok(
            vs,
            lat_count,
            lon,
            lat,
        )
    &&& forall|lat: int, j: int|
        0 <= lat < lat_count && 0 <= j <= lon_count ==> #[trigger] ring_vertex_ok(
            vs,
            lat_count,
            lon_count,
            lat,
            j,
        )
}

/// The index list of a non-degenerate sphere, pinned slot by slot.
pub open spec fn sphere_indices_ok(is: Seq<u16>, lat_count: int, lon_count: int) -> bool {
    &&& is.len() == total_index_count(lat_count, lon_count)
    &&& forall|lon: int, lat: int|
        0 <= lon < lon_count && 0 <= lat < lat_count - 1 ==> #[trigger] mer_pair_ok(
            is,
            lat_count,
            lon,
            lat,
        )
    &&& forall|lat: int, j: int|
        0 <= lat < lat_count && 0 <= j < lon_count ==> #[trigger] ring_pair_ok(
            is,
            lat_count,
            lon_count,
            lat,
            j,
        )
}

/// What `generate_sphere` returns: nothing at all on degenerate input, and
/// otherwise exactly the grid, arcs and rings described above.
pub open spec fn sphere_mesh_ok(m: Mesh, lat_count: u32, lon_count: u32) -> bool {
    if degenerate(lat_count, lon_count) {
        m.vertices@.len() == 0 && m.indices@.len() == 0
    } else {
        &&& sphere_vertices_ok(m.vertices@, lat_count as int, lon_count as int)
        &&& sphere_indices_ok(m.indices@, lat_count as int, lon_count as int)
    }
}

/// Well-formedness of any line-list mesh: an even number of indices, each
/// one naming an existing vertex.
pub open spec fn mesh_wf(m: Mesh) -> bool {
    &&& m.indices@.len() % 2 == 0
    &&& forall|i: int|
        0 <= i < m.indices@.len() ==> ((#[trigger] m.indices@[i]) as int) < m.vertices@.len()
}

/// Build the wireframe sphere with `lat_count` rings and `lon_count`
/// meridians.
///
/// Too few samples in either direction yield an empty mesh rather than an
/// error; callers skip the draw. The index buffer is sixteen-bit, so a
/// non-degenerate mesh must keep its vertex count within that range.
pub fn generate_sphere(lat_count: u32, lon_count: u32) -> (m: Mesh)
    requires
        !degenerate(lat_count, lon_count) ==> total_vertex_count(
            lat_count as int,
            lon_count as int,
        ) <= 0x10000,
    ensures
        sphere_mesh_ok(m, lat_count, lon_count),
        mesh_wf(m),
        forall|k: int|
            0 <= k < m.vertices@.len() ==> (#[trigger] m.vertices@[k]).order as int == k,
{
    let mut vertices: Vec<SphereVertex> = Vec::new();
    let mut indices: Vec<u16> = Vec::new();
    if lat_count < 3 || lon_count < 3 {
        return Mesh { vertices, indices };
    }
    let ghost latc: int = lat_count as int;
    let ghost lonc: int = lon_count as int;
    let mut order: u32 = 0;

    let mut lon: u32 = 0;
    while lon < lon_count
        invariant
            3 <= latc && 3 <= lonc,
            latc == lat_count as int && lonc == lon_count as int,
            total_vertex_count(latc, lonc) <= 0x10000,
            lon <= lon_count,
            vertices@.len() == meridian_slot(latc, lon as int, 0),
            order as int == vertices@.len(),
            indices@.len() == meridian_pair_slot(latc, lon as int, 0),
            forall|l: int, t: int|
                0 <= l < lon as int && 0 <= t < latc ==> #[trigger] mer_vertex_ok(
                    vertices@,
                    latc,
                    l,
                    t,
                ),
            forall|l: int, t: int|
                0 <= l < lon as int && 0 <= t < latc - 1 ==> #[trigger] mer_pair_ok(
                    indices@,
                    latc,
                    l,
                    t,
                ),
            forall|i: int|
                0 <= i < indices@.len() ==> ((#[trigger] indices@[i]) as int) < total_vertex_count(
                    latc,
                    lonc,
                ),
            forall|k: int| 0 <= k < vertices@.len() ==> (#[trigger] vertices@[k]).order as int == k,
        decreases lon_count - lon,
    {
        let start_index: u32 = order;
        let mut lat: u32 = 0;
        while lat < lat_count
            invariant
                3 <= latc && 3 <= lonc,
                latc == lat_count as int && lonc == lon_count as int,
                total_vertex_count(latc, lonc) <= 0x10000,
                lon < lon_count,
                lat <= lat_count,
                start_index as int == meridian_slot(latc, lon as int, 0),
                vertices@.len() == meridian_slot(latc, lon as int, lat as int),
                order as int == vertices@.len(),
                indices@.len() == meridian_pair_slot(
                    latc,
                    lon as int,
                    if (lat as int) < latc - 1 { lat as int } else { latc - 1 },
                ),
                forall|l: int, t: int|
                    0 <= l < lon as int && 0 <= t < latc ==> #[trigger] mer_vertex_ok(
                        vertices@,
                        latc,
                        l,
                        t,
                    ),
                forall|t: int|
                    0 <= t < lat as int ==> #[trigger] mer_vertex_ok(vertices@, latc, lon as int, t),
                forall|l: int, t: int|
                    0 <= l < lon as int && 0 <= t < latc - 1 ==> #[trigger] mer_pair_ok(
                        indices@,
                        latc,
                        l,
                        t,
                    ),
                forall|t: int|
                    0 <= t < lat as int && t < latc - 1 ==> #[trigger] mer_pair_ok(
                        indices@,
                        latc,
                        lon as int,
                        t,
                    ),
                forall|i: int|
                    0 <= i < indices@.len() ==> ((#[trigger] indices@[i]) as int)
                        < total_vertex_count(latc, lonc),
                forall|k: int|
                    0 <= k < vertices@.len() ==> (#[trigger] vertices@[k]).order as int == k,
            decreases lat_count - lat,
        {
            proof {
                assert(lon as int * latc + lat as int + 1 <= lonc * latc && latc <= latc * (lonc
                    + 1)) by (nonlinear_arith)
                    requires
                        3 <= latc && 3 <= lonc,
                        0 <= (lon as int) < lonc,
                        0 <= (lat as int) < latc;
            }
            let ghost vs0 = vertices@;
            let ghost is0 = indices@;
            vertices.push(SphereVertex { lat, lon, order });
            order = order + 1;
            if lat != lat_count - 1 {
                let idx: u16 = (start_index + lat) as u16;
                indices.push(idx);
                indices.push(idx + 1);
            }
            proof {
                assert forall|l: int, t: int| 0 <= l < lon as int && 0 <= t < latc implies #[trigger]
                    mer_vertex_ok(vertices@, latc, l, t) by {
                    assert(mer_vertex_ok(vs0, latc, l, t));
                }
                assert forall|t: int| 0 <= t < lat as int + 1 implies #[trigger] mer_vertex_ok(
                    vertices@,
                    latc,
                    lon as int,
                    t,
                ) by {
                    if t < lat as int {
                        assert(mer_vertex_ok(vs0, latc, lon as int, t));
                    }
                }
                assert forall|l: int, t: int| 0 <= l < lon as int && 0 <= t < latc - 1 implies #[trigger]
                    mer_pair_ok(indices@, latc, l, t) by {
                    assert(mer_pair_ok(is0, latc, l, t));
                }
                assert forall|t: int| 0 <= t < lat as int + 1 && t < latc - 1 implies #[trigger]
                    mer_pair_ok(indices@, latc, lon as int, t) by {
                    if t < lat as int {
                        assert(mer_pair_ok(is0, latc, lon as int, t));
                    }
                }
            }
            lat = lat + 1;
        }
        proof {
            assert((lon as int + 1) * latc == lon as int * latc + latc && (lon as int + 1) * (latc
                - 1) == lon as int * (latc - 1) + (latc - 1)) by (nonlinear_arith);
        }
        lon = lon + 1;
    }
    proof {
        assert(3 * lonc <= lonc * latc && 0 <= latc * (lonc + 1)) by (nonlinear_arith)
            requires 3 <= latc && 3 <= lonc;
    }

    let mut lat: u32 = 0;
    while lat < lat_count
        invariant
            3 <= latc && 3 <= lonc,
            latc == lat_count as int && lonc == lon_count as int,
            total_vertex_count(latc, lonc) <= 0x10000,
            lon_count < 0x10000,
            lat <= lat_count,
            vertices@.len() == ring_slot(latc, lonc, lat as int, 0),
            order as int == vertices@.len(),
            indices@.len() == ring_pair_slot(latc, lonc, lat as int, 0),
            forall|l: int, t: int|
                0 <= l < lonc && 0 <= t < latc ==> #[trigger] mer_vertex_ok(vertices@, latc, l, t),
            forall|l: int, t: int|
                0 <= l < lonc && 0 <= t < latc - 1 ==> #[trigger] mer_pair_ok(indices@, latc, l, t),
            forall|t: int, i: int|
                0 <= t < lat as int && 0 <= i <= lonc ==> #[trigger] ring_vertex_ok(
                    vertices@,
                    latc,
                    lonc,
                    t,
                    i,
                ),
            forall|t: int, i: int|
                0 <= t < lat as int && 0 <= i < lonc ==> #[trigger] ring_pair_ok(
                    indices@,
                    latc,
                    lonc,
                    t,
                    i,
                ),
            forall|i: int|
                0 <= i < indices@.len() ==> ((#[trigger] indices@[i]) as int) < total_vertex_count(
                    latc,
                    lonc,
                ),
            forall|k: int| 0 <= k < vertices@.len() ==> (#[trigger] vertices@[k]).order as int == k,
        decreases lat_count - lat,
    {
        let ring_start: u32 = order;
        let mut j: u32 = 0;
        while j <= lon_count
            invariant
                3 <= latc && 3 <= lonc,
                latc == lat_count as int && lonc == lon_count as int,
                total_vertex_count(latc, lonc) <= 0x10000,
                lat < lat_count,
                j <= lon_count + 1,
                lon_count < 0x10000,
                ring_start as int == ring_slot(latc, lonc, lat as int, 0),
                vertices@.len() == ring_slot(latc, lonc, lat as int, j as int),
                order as int == vertices@.len(),
                indices@.len() == ring_pair_slot(
                    latc,
                    lonc,
                    lat as int,
                    if (j as int) < lonc { j as int } else { lonc },
                ),
                forall|l: int, t: int|
                    0 <= l < lonc && 0 <= t < latc ==> #[trigger] mer_vertex_ok(
                        vertices@,
                        latc,
                        l,
                        t,
                    ),
                forall|l: int, t: int|
                    0 <= l < lonc && 0 <= t < latc - 1 ==> #[trigger] mer_pair_ok(
                        indices@,
                        latc,
                        l,
                        t,
                    ),
                forall|t: int, i: int|
                    0 <= t < lat as int && 0 <= i <= lonc ==> #[trigger] ring_vertex_ok(
                        vertices@,
                        latc,
                        lonc,
                        t,
                        i,
                    ),
                forall|i: int|
                    0 <= i < j as int ==> #[trigger] ring_vertex_ok(
                        vertices@,
                        latc,
                        lonc,
                        lat as int,
                        i,
                    ),
                forall|t: int, i: int|
                    0 <= t < lat as int && 0 <= i < lonc ==> #[trigger] ring_pair_ok(
                        indices@,
                        latc,
                        lonc,
                        t,
                        i,
                    ),
                forall|i: int|
                    0 <= i < j as int && i < lonc ==> #[trigger] ring_pair_ok(
                        indices@,
                        latc,
                        lonc,
                        lat as int,
                        i,
                    ),
                forall|i: int|
                    0 <= i < indices@.len() ==> ((#[trigger] indices@[i]) as int)
                        < total_vertex_count(latc, lonc),
                forall|k: int|
                    0 <= k < vertices@.len() ==> (#[trigger] vertices@[k]).order as int == k,
            decreases lon_count + 1 - j,
        {
            proof {
                assert(lat as int * (lonc + 1) + (lonc + 1) <= latc * (lonc + 1))
                    by (nonlinear_arith)
                    requires 0 <= (lat as int) < latc && 0 <= lonc;
            }
            let ghost vs0 = vertices@;
            let ghost is0 = indices@;
            let lonv: u32 = if j < lon_count {
                j
            } else {
                0
            };
            vertices.push(SphereVertex { lat, lon: lonv, order });
            order = order + 1;
            if j < lon_count {
                let idx: u16 = (ring_start + j) as u16;
                indices.push(idx);
                indices.push(idx + 1);
            }
            proof {
                assert forall|l: int, t: int| 0 <= l < lonc && 0 <= t < latc implies #[trigger]
                    mer_vertex_ok(vertices@, latc, l, t) by {
                    assert(mer_vertex_ok(vs0, latc, l, t));
                }
                assert forall|l: int, t: int| 0 <= l < lonc && 0 <= t < latc - 1 implies #[trigger]
                    mer_pair_ok(indices@, latc, l, t) by {
                    assert(mer_pair_ok(is0, latc, l, t));
                }
                assert forall|t: int, i: int| 0 <= t < lat as int && 0 <= i <= lonc implies #[trigger]
                    ring_vertex_ok(vertices@, latc, lonc, t, i) by {
                    assert(ring_vertex_ok(vs0, latc, lonc, t, i));
                }
                assert forall|i: int| 0 <= i < j as int + 1 implies #[trigger] ring_vertex_ok(
                    vertices@,
                    latc,
                    lonc,
                    lat as int,
                    i,
                ) by {
                    if i < j as int {
                        assert(ring_vertex_ok(vs0, latc, lonc, lat as int, i));
                    }
                }
                assert forall|t: int, i: int| 0 <= t < lat as int && 0 <= i < lonc implies #[trigger]
                    ring_pair_ok(indices@, latc, lonc, t, i) by {
                    assert(ring_pair_ok(is0, latc, lonc, t, i));
                }
                assert forall|i: int| 0 <= i < j as int + 1 && i < lonc implies #[trigger]
                    ring_pair_ok(indices@, latc, lonc, lat as int, i) by {
                    if i < j as int {
                        assert(ring_pair_ok(is0, latc, lonc, lat as int, i));
                    }
                }
            }
            j = j + 1;
        }
        proof {
            assert((lat as int + 1) * (lonc + 1) == lat as int * (lonc + 1) + (lonc + 1) && (
            lat as int + 1) * lonc == lat as int * lonc + lonc) by (nonlinear_arith);
        }
        lat = lat + 1;
    }
    proof {
        assert(total_index_count(latc, lonc) % 2 == 0) by {
            assert(2 * (lonc * (latc - 1)) + 2 * (latc * lonc) == 2 * (lonc * (latc - 1) + latc
                * lonc));
            assert((2 * (lonc * (latc - 1) + latc * lonc)) % 2 == 0) by (nonlinear_arith);
        }
    }
    Mesh { vertices, indices }
}

/// Every ring is closed by its duplicate: the last sample of each ring lies
/// at the same grid point — the same point on the sphere — as the ring's
/// first sample, so the wrap-around segment really closes the loop.
pub proof fn lemma_rings_closed(vs: Seq<SphereVertex>, lat_count: int, lon_count: int, lat: int)
    requires
        3 <= lat_count && 3 <= lon_count,
        sphere_vertices_ok(vs, lat_count, lon_count),
        0 <= lat < lat_count,
    ensures
        0 <= ring_slot(lat_count, lon_count, lat, 0) < vs.len(),
        0 <= ring_slot(lat_count, lon_count, lat, lon_count) < vs.len(),
        vs[ring_slot(lat_count, lon_count, lat, lon_count)].lat == vs[ring_slot(
            lat_count,
            lon_count,
            lat,
            0,
        )].lat,
        vs[ring_slot(lat_count, lon_count, lat, lon_count)].lon == vs[ring_slot(
            lat_count,
            lon_count,
            lat,
            0,
        )].lon,
{
    assert(ring_vertex_ok(vs, lat_count, lon_count, lat, 0));
    assert(ring_vertex_ok(vs, lat_count, lon_count, lat, lon_count));
}

/// Every position of the vertex list is pinned by the characterisation: two
/// lists that both satisfy it agree there.
proof fn lemma_vertex_slot_agrees(
    vs1: Seq<SphereVertex>,
    vs2: Seq<SphereVertex>,
    lat_count: int,
    lon_count: int,
    k: int,
)
    requires
        3 <= lat_count && 3 <= lon_count,
        sphere_vertices_ok(vs1, lat_count, lon_count),
        sphere_vertices_ok(vs2, lat_count, lon_count),
        0 <= k < total_vertex_count(lat_count, lon_count),
    ensures
        vs1[k] == vs2[k],
{
    if k < lon_count * lat_count {
        let lon: int = k / lat_count;
        let lat: int = k % lat_count;
        lemma_fundamental_div_mod(k, lat_count);
        lemma_mod_bound(k, lat_count);
        assert(0 <= lon < lon_count) by (nonlinear_arith)
            requires
                3 <= lat_count,
                0 <= k < lon_count * lat_count,
                k == lat_count * lon + lat,
                0 <= lat < lat_count;
        assert(lon * lat_count == lat_count * lon) by (nonlinear_arith);
        assert(mer_vertex_ok(vs1, lat_count, lon, lat));
        assert(mer_vertex_ok(vs2, lat_count, lon, lat));
    } else {
        let k2: int = k - lon_count * lat_count;
        let d: int = lon_count + 1;
        let lat: int = k2 / d;
        let j: int = k2 % d;
        lemma_fundamental_div_mod(k2, d);
        lemma_mod_bound(k2, d);
        assert(0 <= lat < lat_count) by (nonlinear_arith)
            requires
                4 <= d,
                0 <= k2 < lat_count * d,
                k2 == d * lat + j,
                0 <= j < d;
        assert(lat * d == d * lat) by (nonlinear_arith);
        assert(ring_vertex_ok(vs1, lat_count, lon_count, lat, j));
        assert(ring_vertex_ok(vs2, lat_count, lon_count, lat, j));
    }
}

/// Every position of the index list is pinned by the characterisation: two
/// lists that both satisfy it agree there.
proof fn lemma_index_slot_agrees(
    is1: Seq<u16>,
    is2: Seq<u16>,
    lat_count: int,
    lon_count: int,
    m: int,
)
    requires
        3 <= lat_count && 3 <= lon_count,
        sphere_indices_ok(is1, lat_count, lon_count),
        sphere_indices_ok(is2, lat_count, lon_count),
        0 <= m < total_index_count(lat_count, lon_count),
    ensures
        is1[m] == is2[m],
{
    let p: int = m / 2;
    let b: int = m % 2;
    lemma_fundamental_div_mod(m, 2);
    lemma_mod_bound(m, 2);
    if m < meridian_index_count(lat_count, lon_count) {
        let d: int = lat_count - 1;
        let lon: int = p / d;
        let lat: int = p % d;
        lemma_fundamental_div_mod(p, d);
        lemma_mod_bound(p, d);
        assert(0 <= lon < lon_count) by (nonlinear_arith)
            requires
                2 <= d,
                0 <= p < lon_count * d,
                p == d * lon + lat,
                0 <= lat < d;
        assert(lon * d == d * lon) by (nonlinear_arith);
        assert(mer_pair_ok(is1, lat_count, lon, lat));
        assert(mer_pair_ok(is2, lat_count, lon, lat));
        if b == 0 {
            assert(m == meridian_pair_slot(lat_count, lon, lat));
        } else {
            assert(m == meridian_pair_slot(lat_count, lon, lat) + 1);
        }
    } else {
        let p2: int = p - lon_count * (lat_count - 1);
        let lat: int = p2 / lon_count;
        let j: int = p2 % lon_count;
        lemma_fundamental_div_mod(p2, lon_count);
        lemma_mod_bound(p2, lon_count);
        assert(0 <= lat < lat_count) by (nonlinear_arith)
            requires
                3 <= lon_count,
                0 <= p2 < lat_count * lon_count,
                p2 == lon_count * lat + j,
                0 <= j < lon_count;
        assert(lat * lon_count == lon_count * lat) by (nonlinear_arith);
        assert(ring_pair_ok(is1, lat_count, lon_count, lat, j));
        assert(ring_pair_ok(is2, lat_count, lon_count, lat, j));
        if b == 0 {
            assert(m == ring_pair_slot(lat_count, lon_count, lat, j));
        } else {
            assert(m == ring_pair_slot(lat_count, lon_count, lat, j) + 1);
        }
    }
}

/// The mesher is a pure function of its two sample counts: any two meshes
/// that satisfy its description for the same counts are equal, vertex for
/// vertex and index for index. Together with the contract of
/// `generate_sphere`, two calls with identical inputs yield identical output.
pub proof fn lemma_mesher_deterministic(m1: Mesh, m2: Mesh, lat_count: u32, lon_count: u32)
    requires
        sphere_mesh_ok(m1, lat_count, lon_count),
        sphere_mesh_ok(m2, lat_count, lon_count),
    ensures
        m1.vertices@ == m2.vertices@,
        m1.indices@ == m2.indices@,
{
    if degenerate(lat_count, lon_count) {
        assert(m1.vertices@ =~= m2.vertices@);
        assert(m1.indices@ =~= m2.indices@);
    } else {
        let latc: int = lat_count as int;
        let lonc: int = lon_count as int;
        assert forall|k: int| 0 <= k < m1.vertices@.len() implies m1.vertices@[k]
            == m2.vertices@[k] by {
            lemma_vertex_slot_agrees(m1.vertices@, m2.vertices@, latc, lonc, k);
        }
        assert(m1.vertices@ =~= m2.vertices@);
        assert forall|m: int| 0 <= m < m1.indices@.len() implies m1.indices@[m]
            == m2.indices@[m] by {
            lemma_index_slot_agrees(m1.indices@, m2.indices@, latc, lonc, m);
        }
        assert(m1.indices@ =~= m2.indices@);
    }
}

} // verus!
