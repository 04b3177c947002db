//! Desenho em imagens RGBA: o traçado do minimapa é uma sequência de
//! discos carimbados numa textura quadrada.

use vstd::prelude::*;

verus! {

/// Posição do canal `channel` do pixel `(px, py)` numa imagem RGBA de lado
/// `size`, linha a linha.
pub open spec fn pixel_index(size: int, px: int, py: int, channel: int) -> int {
    (py * size + px) * 4 + channel
}

/// O pixel `(px, py)` cai no disco de raio `radius` centrado em `(x, y)`.
pub open spec fn in_disc(x: int, y: int, radius: int, px: int, py: int) -> bool {
    (px - x) * (px - x) + (py - y) * (py - y) <= radius * radius
}

/// Maior coordenada aceita para o centro e maior raio de um disco.
pub const MAX_COORDINATE: i32 = 0x10_0000;

pub const MAX_RADIUS: i32 = 0x1000;

/// Posições distintas da imagem não se sobrepõem.
proof fn lemma_pixel_index_injective(
    size: int,
    ax: int,
    ay: int,
    ac: int,
    bx: int,
    by: int,
    bc: int,
)
    requires
        0 <= ax < size,
        0 <= bx < size,
        0 <= ay < size,
        0 <= by < size,
        0 <= ac < 4,
        0 <= bc < 4,
        pixel_index(size, ax, ay, ac) == pixel_index(size, bx, by, bc),
    ensures
        ax == bx && ay == by && ac == bc,
{
    let a = ay * size + ax;
    let b = by * size + bx;
    assert(a * 4 + ac == b * 4 + bc);
    assert(a == b);
    assert(ay == by) by (nonlinear_arith)
        requires
            ay * size + ax == by * size + bx,
            0 <= ax < size,
            0 <= bx < size,
    ;
}

/// Toda posição da imagem cabe no buffer.
proof fn lemma_pixel_index_bounds(size: int, px: int, py: int, channel: int)
    requires
        0 <= px < size,
        0 <= py < size,
        0 <= channel < 4,
    ensures
        0 <= pixel_index(size, px, py, channel) < size * size * 4,
{
    assert(0 <= py * size + px < size * size) by (nonlinear_arith)
        requires
            0 <= px < size,
            0 <= py < size,
    ;
}

/// Um ponto do disco está a no máximo `radius` do centro em cada eixo.
proof fn lemma_disc_within_box(dx: int, dy: int, radius: int)
    requires
        radius >= 0,
        dx * dx + dy * dy <= radius * radius,
    ensures
        -radius <= dx <= radius,
        -radius <= dy <= radius,
{
    assert(dx * dx <= radius * radius) by (nonlinear_arith)
        requires
            dx * dx + dy * dy <= radius * radius,
    ;
    assert(dy * dy <= radius * radius) by (nonlinear_arith)
        requires
            dx * dx + dy * dy <= radius * radius,
    ;
    assert(-radius <= dx <= radius) by (nonlinear_arith)
        requires
            dx * dx <= radius * radius,
            radius >= 0,
    ;
    assert(-radius <= dy <= radius) by (nonlinear_arith)
        requires
            dy * dy <= radius * radius,
            radius >= 0,
    ;
}

/// Já carimbado: no disco e antes da posição `(ox, oy)` da varredura.
pub open spec fn stamped(x: int, y: int, radius: int, px: int, py: int, ox: int, oy: int) -> bool {
    in_disc(x, y, radius, px, py) && (py - y < oy || (py - y == oy && px - x < ox))
}

/// Pinta com `color` os pixels da imagem que caem no disco de raio
/// `radius` centrado em `(x, y)`; o que fica fora da imagem é descartado.
pub fn plot_disc(pixels: &mut Vec<u8>, size: usize, x: i32, y: i32, radius: i32, color: [u8; 4])
    requires
        old(pixels).len() == size * size * 4,
        size <= i32::MAX,
        -MAX_COORDINATE <= x <= MAX_COORDINATE,
        -MAX_COORDINATE <= y <= MAX_COORDINATE,
        0 <= radius <= MAX_RADIUS,
    ensures
        final(pixels).len() == old(pixels).len(),
        forall|px: int, py: int, channel: int|
            0 <= px < size && 0 <= py < size && 0 <= channel < 4
                ==> #[trigger] final(pixels)@[pixel_index(size as int, px, py, channel)] == if in_disc(
                x as int,
                y as int,
                radius as int,
                px,
                py,
            ) {
                color@[channel]
            } else {
                old(pixels)@[pixel_index(size as int, px, py, channel)]
            },
{
    let ghost original = pixels@;
    let ghost s = size as int;
    let mut oy: i32 = -radius;
    proof {
        assert forall|qx: int, qy: int| 0 <= qx < size && 0 <= qy < size implies !#[trigger] stamped(
            x as int,
            y as int,
            radius as int,
            qx,
            qy,
            -radius - 1,
            -radius,
        ) by {
            if in_disc(x as int, y as int, radius as int, qx, qy) {
                lemma_disc_within_box(qx - x, qy - y, radius as int);
            }
        }
    }
    while oy <= radius
        invariant
            pixels.len() == size * size * 4,
            original.len() == size * size * 4,
            s == size,
            size <= i32::MAX,
            -MAX_COORDINATE <= x <= MAX_COORDINATE,
            -MAX_COORDINATE <= y <= MAX_COORDINATE,
            0 <= radius <= MAX_RADIUS,
            -radius <= oy <= radius + 1,
            forall|px: int, py: int, channel: int|
                0 <= px < size && 0 <= py < size && 0 <= channel < 4 ==> #[trigger] pixels@[pixel_index(
                    s,
                    px,
                    py,
                    channel,
                )] == if stamped(x as int, y as int, radius as int, px, py, -radius - 1, oy as int) {
                    color@[channel]
                } else {
                    original[pixel_index(s, px, py, channel)]
                },
        decreases radius + 1 - oy,
    {
        let mut ox: i32 = -radius;
        proof {
            assert forall|qx: int, qy: int| 0 <= qx < size && 0 <= qy < size implies #[trigger] stamped(
                x as int,
                y as int,
                radius as int,
                qx,
                qy,
                -radius - 1,
                oy as int,
            ) == stamped(x as int, y as int, radius as int, qx, qy, -radius as int, oy as int) by {
                if in_disc(x as int, y as int, radius as int, qx, qy) {
                    lemma_disc_within_box(qx - x, qy - y, radius as int);
                }
            }
        }
        while ox <= radius
            invariant
                pixels.len() == size * size * 4,
                original.len() == size * size * 4,
                s == size,
                size <= i32::MAX,
                -MAX_COORDINATE <= x <= MAX_COORDINATE,
                -MAX_COORDINATE <= y <= MAX_COORDINATE,
                0 <= radius <= MAX_RADIUS,
                -radius <= oy <= radius,
                -radius <= ox <= radius + 1,
                forall|px: int, py: int, channel: int|
                    0 <= px < size && 0 <= py < size && 0 <= channel < 4
                        ==> #[trigger] pixels@[pixel_index(s, px, py, channel)] == if stamped(
                        x as int,
                        y as int,
                        radius as int,
                        px,
                        py,
                        ox as int,
                        oy as int,
                    ) {
                        color@[channel]
                    } else {
                        original[pixel_index(s, px, py, channel)]
                    },
            decreases radius + 1 - ox,
        {
            proof {
                assert(0 <= ox * ox <= MAX_RADIUS * MAX_RADIUS) by (nonlinear_arith)
                    requires
                        -MAX_RADIUS <= ox <= MAX_RADIUS,
                ;
                assert(0 <= oy * oy <= MAX_RADIUS * MAX_RADIUS) by (nonlinear_arith)
                    requires
                        -MAX_RADIUS <= oy <= MAX_RADIUS,
                ;
                assert(0 <= radius * radius <= MAX_RADIUS * MAX_RADIUS) by (nonlinear_arith)
                    requires
                        0 <= radius <= MAX_RADIUS,
                ;
            }
            let inside = ox * ox + oy * oy <= radius * radius;
            let px = x + ox;
            let py = y + oy;
            let ghost before = pixels@;
            if inside && px >= 0 && py >= 0 && px < size as i32 && py < size as i32 {
                let row = py as usize;
                let column = px as usize;
                proof {
                    lemma_pixel_index_bounds(s, column as int, row as int, 3);
                    assert((row * size + column) * 4 + 3 < size * size * 4);
                }
                let base = (row * size + column) * 4;
                pixels.set(base, color[0]);
                pixels.set(base + 1, color[1]);
                pixels.set(base + 2, color[2]);
                pixels.set(base + 3, color[3]);
                proof {
                    assert forall|qx: int, qy: int, channel: int|
                        0 <= qx < size && 0 <= qy < size && 0 <= channel < 4 implies #[trigger] pixels@[pixel_index(
                            s,
                            qx,
                            qy,
                            channel,
                        )] == if stamped(
                            x as int,
                            y as int,
                            radius as int,
                            qx,
                            qy,
                            ox + 1,
                            oy as int,
                        ) {
                            color@[channel]
                        } else {
                            original[pixel_index(s, qx, qy, channel)]
                        } by {
                        lemma_pixel_index_bounds(s, qx, qy, channel);
                        if qx == column && qy == row {
                            assert(pixel_index(s, qx, qy, channel) == base + channel);
                        } else {
                            assert forall|c: int| 0 <= c < 4 implies pixel_index(s, qx, qy, channel)
                                != pixel_index(s, column as int, row as int, c) by {
                                if pixel_index(s, qx, qy, channel) == pixel_index(
                                    s,
                                    column as int,
                                    row as int,
                                    c,
                                ) {
                                    lemma_pixel_index_injective(
                                        s,
                                        qx,
                                        qy,
                                        channel,
                                        column as int,
                                        row as int,
                                        c,
                                    );
                                }
                            }
                            assert(pixel_index(s, column as int, row as int, 0) == base);
                            assert(pixel_index(s, column as int, row as int, 1) == base + 1);
                            assert(pixel_index(s, column as int, row as int, 2) == base + 2);
                            assert(pixel_index(s, column as int, row as int, 3) == base + 3);
                            assert(pixels@[pixel_index(s, qx, qy, channel)] == before[pixel_index(
                                s,
                                qx,
                                qy,
                                channel,
                            )]);
                        }
                    }
                }
            } else {
                proof {
                    assert forall|qx: int, qy: int, channel: int|
                        0 <= qx < size && 0 <= qy < size && 0 <= channel < 4 implies #[trigger] pixels@[pixel_index(
                            s,
                            qx,
                            qy,
                            channel,
                        )] == if stamped(
                            x as int,
                            y as int,
                            radius as int,
                            qx,
                            qy,
                            ox + 1,
                            oy as int,
                        ) {
                            color@[channel]
                        } else {
                            original[pixel_index(s, qx, qy, channel)]
                        } by {
                        if qx == px && qy == py {
                            assert(!inside);
                        }
                    }
                }
            }
            ox = ox + 1;
        }
        proof {
            assert forall|qx: int, qy: int|
                0 <= qx < size && 0 <= qy < size implies #[trigger] stamped(
                x as int,
                y as int,
                radius as int,
                qx,
                qy,
                ox as int,
                oy as int,
            ) == stamped(x as int, y as int, radius as int, qx, qy, -radius - 1, oy + 1) by {
                if in_disc(x as int, y as int, radius as int, qx, qy) {
                    lemma_disc_within_box(qx - x, qy - y, radius as int);
                }
            }
        }
        oy = oy + 1;
    }
    proof {
        assert forall|qx: int, qy: int|
            0 <= qx < size && 0 <= qy < size implies #[trigger] stamped(
            x as int,
            y as int,
            radius as int,
            qx,
            qy,
            -radius - 1,
            oy as int,
        ) == in_disc(x as int, y as int, radius as int, qx, qy) by {
            if in_disc(x as int, y as int, radius as int, qx, qy) {
                lemma_disc_within_box(qx - x, qy - y, radius as int);
            }
        }
    }
}

/// Ruído determinístico por pixel, com dezesseis bits de resolução.
pub open spec fn noise_bits_of(x: u32, y: u32, seed: u32) -> u32 {
    let hash = x.wrapping_mul(374_761_393) ^ y.wrapping_mul(668_265_263) ^ seed;
    let hash = (hash ^ (hash >> 13u32)).wrapping_mul(1_274_126_177);
    (hash ^ (hash >> 16u32)) & 0xFFFF
}

/// Ruído determinístico e barato, de `0` a `0xFFFF`, usado nas texturas
/// geradas em tempo de execução.
pub fn noise_bits(x: u32, y: u32, seed: u32) -> (bits: u32)
    ensures
        bits == noise_bits_of(x, y, seed),
        bits <= 0xFFFF,
{
    let hash = x.wrapping_mul(374_761_393) ^ y.wrapping_mul(668_265_263) ^ seed;
    let hash = (hash ^ (hash >> 13u32)).wrapping_mul(1_274_126_177);
    let bits = (hash ^ (hash >> 16u32)) & 0xFFFF;
    assert(bits <= 0xFFFF) by (bit_vector)
        requires
            bits == (hash ^ (hash >> 16u32)) & 0xFFFF,
    ;
    bits
}

/// Um passo do gerador xorshift de 32 bits.
pub open spec fn xorshift_of(state: u32) -> u32 {
    let a = state ^ (state << 13u32);
    let b = a ^ (a >> 17u32);
    b ^ (b << 5u32)
}

/// Avança o gerador de ruído branco do som do motor.
pub fn xorshift(state: u32) -> (next: u32)
    ensures
        next == xorshift_of(state),
{
    let a = state ^ (state << 13u32);
    let b = a ^ (a >> 17u32);
    b ^ (b << 5u32)
}

/// Um gerador que não começa em zero nunca chega a zero.
pub proof fn lemma_xorshift_never_zero(state: u32)
    requires
        state != 0,
    ensures
        xorshift_of(state) != 0,
{
    let a = state ^ (state << 13u32);
    let b = a ^ (a >> 17u32);
    let c = b ^ (b << 5u32);
    assert(state != 0 ==> a != 0) by (bit_vector)
        requires
            a == state ^ (state << 13u32),
    ;
    assert(a != 0 ==> b != 0) by (bit_vector)
        requires
            b == a ^ (a >> 17u32),
    ;
    assert(b != 0 ==> c != 0) by (bit_vector)
        requires
            c == b ^ (b << 5u32),
    ;
}

} // verus!
