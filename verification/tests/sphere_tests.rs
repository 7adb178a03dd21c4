use wiresphere::mesh::{generate_sphere, SphereVertex};

/// Every index names an existing vertex and the index list pairs up into
/// whole segments, for a few non-degenerate sizes.
#[test]
fn indices_in_bounds_and_even() {
    for &(lat, lon) in &[(3u32, 3u32), (8, 12), (5, 7), (3, 64)] {
        let m = generate_sphere(lat, lon);
        assert!(m.vertices.len() > 0);
        assert_eq!(m.indices.len() % 2, 0);
        for &i in &m.indices {
            assert!((i as usize) < m.vertices.len());
        }
    }
}

/// The ring section holds `lat_count * (lon_count + 1)` vertices, and every
/// ring ends in a closing duplicate of its first sample: same grid
/// coordinates, so the same point on the sphere.
#[test]
fn ring_counts_and_closing_duplicate() {
    for &(lat_count, lon_count) in &[(3u32, 3u32), (8, 12)] {
        let m = generate_sphere(lat_count, lon_count);
        let base: usize = (lat_count * lon_count) as usize;
        let ring_len: usize = (lon_count + 1) as usize;
        assert_eq!(m.vertices.len(), base + (lat_count as usize) * ring_len);
        for ring in 0..lat_count as usize {
            let start: usize = base + ring * ring_len;
            let first = m.vertices[start];
            let last = m.vertices[start + ring_len - 1];
            assert_eq!(first.lat, last.lat);
            assert_eq!(first.lon, last.lon);
            assert_eq!(first.lon, 0);
        }
    }
}

/// The mesher is a pure function of its inputs: two calls with the same
/// counts agree bit for bit.
#[test]
fn mesher_is_deterministic() {
    for &(lat, lon) in &[(0u32, 5u32), (3, 3), (8, 12)] {
        let a = generate_sphere(lat, lon);
        let b = generate_sphere(lat, lon);
        assert_eq!(a, b);
    }
}

/// Too few samples in either direction yield an empty mesh, not an error.
#[test]
fn degenerate_inputs_yield_empty_mesh() {
    for &(lat, lon) in &[(0u32, 5u32), (5, 0), (2, 3), (3, 2), (0, 0)] {
        let m = generate_sphere(lat, lon);
        assert!(m.vertices.is_empty());
        assert!(m.indices.is_empty());
    }
}

/// The smallest non-degenerate sphere: non-empty, valid indices, and every
/// ring holds four vertices — three distinct samples plus the closing
/// duplicate.
#[test]
fn smallest_sphere_is_well_formed() {
    let m = generate_sphere(3, 3);
    assert!(!m.vertices.is_empty());
    assert!(!m.indices.is_empty());
    for &i in &m.indices {
        assert!((i as usize) < m.vertices.len());
    }
    let base: usize = 9;
    for ring in 0..3usize {
        let start: usize = base + ring * 4;
        assert!(start + 3 < m.vertices.len());
        let ring_verts = &m.vertices[start..start + 4];
        assert_eq!(ring_verts.len(), 4);
        for v in ring_verts {
            assert_eq!(v.lat as usize, ring);
        }
    }
}

/// The exact output for the smallest sphere, vertex for vertex and index for
/// index: three meridians of three samples each, then three closed rings.
#[test]
fn smallest_sphere_exact_output() {
    let m = generate_sphere(3, 3);
    let v = |lat: u32, lon: u32, order: u32| SphereVertex { lat, lon, order };
    let expected_vertices = vec![
        // meridians: one per longitude, samples top to bottom
        v(0, 0, 0),
        v(1, 0, 1),
        v(2, 0, 2),
        v(0, 1, 3),
        v(1, 1, 4),
        v(2, 1, 5),
        v(0, 2, 6),
        v(1, 2, 7),
        v(2, 2, 8),
        // rings: each closed by a duplicate at longitude zero
        v(0, 0, 9),
        v(0, 1, 10),
        v(0, 2, 11),
        v(0, 0, 12),
        v(1, 0, 13),
        v(1, 1, 14),
        v(1, 2, 15),
        v(1, 0, 16),
        v(2, 0, 17),
        v(2, 1, 18),
        v(2, 2, 19),
        v(2, 0, 20),
    ];
    assert_eq!(m.vertices, expected_vertices);
    let expected_indices: Vec<u16> = vec![
        // meridian segments
        0, 1, 1, 2, 3, 4, 4, 5, 6, 7, 7, 8,
        // ring segments, wrapping onto the closing duplicates
        9, 10, 10, 11, 11, 12, 13, 14, 14, 15, 15, 16, 17, 18, 18, 19, 19, 20,
    ];
    assert_eq!(m.indices, expected_indices);
}

/// Vertex emission ranks count up one per vertex, across both phases.
#[test]
fn emission_order_is_the_position() {
    let m = generate_sphere(4, 5);
    for (k, v) in m.vertices.iter().enumerate() {
        assert_eq!(v.order as usize, k);
    }
}

/// A mesh near the sixteen-bit ceiling: the vertex count stays within range,
/// every index fits, and the largest index names the very last vertex — the
/// closing duplicate of the bottom ring.
#[test]
fn largest_mesh_fits_sixteen_bit_indices() {
    let m = generate_sphere(3, 10922);
    let total: usize = 3 * 10922 + 3 * 10923;
    assert_eq!(m.vertices.len(), total);
    let max: u16 = m.indices.iter().copied().max().unwrap();
    assert_eq!(max as usize, total - 1);
    for &i in &m.indices {
        assert!((i as usize) < total);
    }
}
