use gpu_life::quad::{full_screen_quad, QuadVertex, QUAD_VERTEX_COUNT};

fn edge(a: QuadVertex, b: QuadVertex, w: i64, h: i64, i: i64, j: i64) -> i64 {
    let (ax, ay, bx, by) = (a.x as i64, a.y as i64, b.x as i64, b.y as i64);
    (bx - ax) * ((2 * j + 1 - h) - ay * h) * w - (by - ay) * ((2 * i + 1 - w) - ax * w) * h
}

fn covers(q: &[QuadVertex], k: usize, w: i64, h: i64, i: i64, j: i64) -> bool {
    edge(q[k], q[k + 1], w, h, i, j) >= 0
        && edge(q[k + 1], q[k + 2], w, h, i, j) >= 0
        && edge(q[k + 2], q[k], w, h, i, j) >= 0
}

#[test]
fn quad_has_six_corners_with_flipped_v() {
    let q = full_screen_quad();
    assert_eq!(q.len(), QUAD_VERTEX_COUNT);
    assert_eq!(q[0], QuadVertex { x: -1, y: -1, u: 0, v: 1 });
    assert_eq!(q[5], QuadVertex { x: 1, y: 1, u: 1, v: 0 });
    for v in &q {
        assert_eq!(v.u as i8, (v.x + 1) / 2);
        assert_eq!(v.v as i8, (1 - v.y) / 2);
    }
}

#[test]
fn quad_covers_small_viewport() {
    let q = full_screen_quad();
    let (w, h) = (7i64, 5i64);
    for j in 0..h {
        for i in 0..w {
            let a = covers(&q, 0, w, h, i, j);
            let b = covers(&q, 3, w, h, i, j);
            assert!(a || b);
            if a && b {
                assert_eq!(edge(q[1], q[2], w, h, i, j), 0);
            }
        }
    }
}
