use rs_wgpu_cube::encoding::{push_u32_le, push_words_le};
use rs_wgpu_cube::renderer::{
    accumulator_initial_bytes, ComputeShaderLightData, Data, PrimitiveTopology, Vertex, VertexFormat,
    VertexHandler,
    ACCUMULATOR_CLEAR_LEN, F32_MINUS_ONE, F32_ONE,
};

fn f32_bytes(values: &[f32]) -> Vec<u8> {
    values.iter().flat_map(|v| v.to_le_bytes()).collect()
}

#[test]
fn push_u32_le_writes_lowest_byte_first() {
    let mut out = vec![9u8];
    push_u32_le(&mut out, 0x1234_5678);
    assert_eq!(out, vec![9, 0x78, 0x56, 0x34, 0x12]);
}

#[test]
fn push_words_le_concatenates_words() {
    let mut out = Vec::new();
    push_words_le(&mut out, &[1, 0xffff_ffff, 0x0100]);
    assert_eq!(out, vec![1, 0, 0, 0, 0xff, 0xff, 0xff, 0xff, 0, 1, 0, 0]);
}

#[test]
fn vertex_transmute_is_float_bytes() {
    let v = Vertex::from([(-1.0f32).to_bits(), 0.5f32.to_bits()]);
    assert_eq!(v.transmute(), f32_bytes(&[-1.0, 0.5]));
    assert_eq!(v.transmute(), vec![0, 0, 0x80, 0xbf, 0, 0, 0, 0x3f]);
}

#[test]
fn vertex_bytes_fill_one_stride() {
    assert_eq!(Vertex::array_stride(), 8);
    let v = Vertex::from([F32_ONE, F32_MINUS_ONE]);
    assert_eq!(v.transmute().len() as u64, Vertex::array_stride());
}

#[test]
fn float_constants_match_their_values() {
    assert_eq!(F32_ONE, 1.0f32.to_bits());
    assert_eq!(F32_MINUS_ONE, (-1.0f32).to_bits());
}

#[test]
fn default_vertex_handler_is_the_quad() {
    let h = VertexHandler::default();
    assert_eq!(
        h.transmute(),
        f32_bytes(&[-1.0, -1.0, 1.0, -1.0, -1.0, 1.0, 1.0, 1.0])
    );
}

#[test]
fn vertex_handler_transmute_of_empty_is_empty() {
    let h = VertexHandler::new(vec![]);
    assert!(h.transmute().is_empty());
}

#[test]
fn vertex_handler_places_vertex_i_at_stride_i() {
    let vs = vec![
        Vertex::from([1, 2]),
        Vertex::from([3, 4]),
        Vertex::from([0xdead_beef, 5]),
    ];
    let bytes = VertexHandler::new(vs.clone()).transmute();
    assert_eq!(bytes.len(), 24);
    for (i, v) in vs.iter().enumerate() {
        assert_eq!(&bytes[8 * i..8 * i + 8], v.transmute().as_slice());
    }
}

#[test]
fn default_light_data_values() {
    let d = ComputeShaderLightData::default();
    let time: f32 = -0.09 * 1E-15;
    let time_delta: f32 = 0.09 * 1E-15;
    let lightspeed: f32 = 3. * 1E8;
    let wavelength: f32 = 500. * 1E-9;
    let cell: f32 = 50. * 1E-9;
    assert_eq!(d.size, (0, 0));
    assert_eq!(d.time, time.to_bits());
    assert_eq!(d.time_delta, time_delta.to_bits());
    assert_eq!(d.lightspeed, lightspeed.to_bits());
    assert_eq!(d.wavelength, wavelength.to_bits());
    assert_eq!(d.size_w, cell.to_bits());
    assert_eq!(d.size_h, cell.to_bits());
    assert!(d.ping_pong);
    assert_eq!(d.key_flags, 0);
}

#[test]
fn light_data_transmute_layout() {
    let d = ComputeShaderLightData::default();
    let bytes = d.transmute();
    assert_eq!(bytes.len(), 28);
    let floats: Vec<f32> = [d.time, d.time_delta, d.lightspeed, d.wavelength, d.size_w, d.size_h]
        .iter()
        .map(|b| f32::from_bits(*b))
        .collect();
    assert_eq!(&bytes[..24], f32_bytes(&floats).as_slice());
    assert_eq!(&bytes[24..], &[1, 0, 0, 0]);
    let mut off = d;
    off.ping_pong = false;
    off.size = (77, 88);
    off.key_flags = 9;
    let off_bytes = off.transmute();
    assert_eq!(&off_bytes[24..], &[0, 0, 0, 0]);
    assert_eq!(&off_bytes[..24], &bytes[..24]);
}

#[test]
fn accumulator_starts_as_0_0_1_1() {
    assert_eq!(accumulator_initial_bytes(), f32_bytes(&[0.0, 0.0, 1.0, 1.0]));
}

#[test]
fn new_data_starts_at_step_zero() {
    let d = Data::new();
    assert_eq!(d.step, 0);
    assert_eq!(d.vertex.transmute(), VertexHandler::default().transmute());
    assert_eq!(d.compute_data.transmute(), ComputeShaderLightData::default().transmute());
}

#[test]
fn begin_frame_plans_one_frame() {
    let mut d = Data::new();
    d.compute_data.size = (900, 600);
    let t = (f32::from_bits(d.compute_data.time) + f32::from_bits(d.compute_data.time_delta)).to_bits();
    let plan = d.begin_frame(t);
    assert_eq!(d.step, 1);
    assert_eq!(d.compute_data.time, t);
    assert!(!d.compute_data.ping_pong);
    assert_eq!(plan.uniform_bytes, d.compute_data.transmute());
    assert_eq!(&plan.uniform_bytes[0..4], &t.to_le_bytes());
    assert_eq!(&plan.uniform_bytes[24..28], &[0, 0, 0, 0]);
    assert_eq!(plan.accumulator_clear_offset, 0);
    assert_eq!(plan.accumulator_clear, vec![0u8; ACCUMULATOR_CLEAR_LEN]);
    assert_eq!(plan.workgroups, (900, 600, 1));
    assert!(!plan.present);
}

#[test]
fn frames_alternate_halves_and_present_every_fifth() {
    let mut d = Data::new();
    let mut offsets = Vec::new();
    let mut presents = Vec::new();
    for i in 0..10u32 {
        let plan = d.begin_frame(i);
        offsets.push(plan.accumulator_clear_offset);
        presents.push(plan.present);
    }
    assert_eq!(offsets, vec![0, 8, 0, 8, 0, 8, 0, 8, 0, 8]);
    assert_eq!(
        presents,
        vec![false, false, false, false, true, false, false, false, false, true]
    );
    assert_eq!(d.step, 10);
    assert!(d.compute_data.ping_pong);
}

#[test]
fn two_frames_restore_the_flag() {
    let mut d = Data::new();
    let before = d.compute_data.ping_pong;
    let a = d.begin_frame(1);
    let b = d.begin_frame(2);
    assert_eq!(d.compute_data.ping_pong, before);
    assert_eq!(a.accumulator_clear_offset + b.accumulator_clear_offset, 8);
}

#[test]
fn frame_keeps_other_parameters() {
    let mut d = Data::new();
    d.compute_data.size = (3, 4);
    d.compute_data.key_flags = 6;
    let before = d.compute_data;
    d.begin_frame(123);
    assert_eq!(d.compute_data.size, before.size);
    assert_eq!(d.compute_data.key_flags, 6);
    assert_eq!(d.compute_data.time_delta, before.time_delta);
    assert_eq!(d.compute_data.lightspeed, before.lightspeed);
    assert_eq!(d.compute_data.wavelength, before.wavelength);
    assert_eq!(d.compute_data.size_w, before.size_w);
    assert_eq!(d.compute_data.size_h, before.size_h);
}

#[test]
fn one_present_in_any_five_frames() {
    let mut d = Data::new();
    d.step = 1_000_003;
    let count = (0..5).filter(|i| d.begin_frame(*i).present).count();
    assert_eq!(count, 1);
}

#[test]
fn words_read_back_from_their_bytes() {
    let words = [0u32, 1, 0x8000_0000, 0xffff_ffff, 0x0102_0304];
    let mut out = Vec::new();
    push_words_le(&mut out, &words);
    assert_eq!(out.len(), 4 * words.len());
    for (i, w) in words.iter().enumerate() {
        let b = [out[4 * i], out[4 * i + 1], out[4 * i + 2], out[4 * i + 3]];
        assert_eq!(u32::from_le_bytes(b), *w);
    }
}

#[test]
fn vertex_format_size_is_the_stride() {
    assert_eq!(Vertex::format(), VertexFormat::Float32x2);
    assert_eq!(Vertex::format().size(), Vertex::array_stride());
    assert_eq!(VertexHandler::topology(), PrimitiveTopology::TriangleStrip);
}

#[test]
fn n_frames_flip_n_times_and_present_on_multiples_of_five() {
    let mut d = Data::new();
    d.step = 3;
    d.compute_data.size = (11, 22);
    let start = d.compute_data;
    let n = 13u32;
    let mut presented = Vec::new();
    for i in 0..n {
        let plan = d.begin_frame(100 + i);
        if plan.present {
            presented.push(d.step);
        }
        assert_eq!(plan.workgroups, (11, 22, 1));
    }
    assert_eq!(d.step, 3 + n as u64);
    assert_eq!(d.compute_data.ping_pong, start.ping_pong != (n % 2 == 1));
    assert_eq!(d.compute_data.time, 100 + n - 1);
    assert_eq!(presented, vec![5, 10, 15]);
    assert_eq!(presented.len() as u64, (3 + n as u64) / 5 - 3 / 5);
    assert_eq!(d.compute_data.lightspeed, start.lightspeed);
}
