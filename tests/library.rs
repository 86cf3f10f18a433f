use hello_d3d::adapter::{
    description_matches_vendor, driver_type, is_valid_utf16, occurs, preferred_vendor,
    select_adapter, to_ascii_lower, DriverType, ADAPTER_LIMIT,
};
use hello_d3d::frame::{setup_successor, start, step, Action, Event, SetupStep, State};
use hello_d3d::pipeline::{
    depth_texture_desc, draw_call, position_element, swap_chain_desc, to_le_bytes,
    vertex_buffer_bytes, vertex_buffer_desc, vertex_words, Bind, Format, Usage, VERTEX_STRIDE,
};
use hello_d3d::window::handle::Handle;
use hello_d3d::window::platform::{
    client_rect, create_window, is_quit_message, outer_size, window_procedure,
    CreateWindowParams, Rect, WindowProcAction, WM_DESTROY, WM_QUIT,
};
use hello_d3d::window::Window;

fn units(s: &str) -> Vec<u16> {
    s.encode_utf16().collect()
}

fn description(s: &str) -> Vec<u16> {
    let mut d = units(s);
    d.resize(128, 0);
    d
}

fn test_window(width: u32, height: u32) -> Window {
    create_window(
        CreateWindowParams { name: "Test window".to_string(), width, height },
        Handle::from(0x1234usize),
    )
}

#[test]
fn handle_round_trip() {
    let h = Handle::from(42usize);
    assert_eq!(h.raw(), 42);
    assert_eq!(usize::from(h), 42);
}

#[test]
fn window_keeps_requested_size() {
    let w = test_window(1280, 720);
    assert_eq!(w.name, "Test window");
    assert_eq!(w.width, 1280);
    assert_eq!(w.height, 720);
    assert_eq!(w.handle, Handle::from(0x1234usize));
}

#[test]
fn client_area_is_requested_size_after_frame_adjustment() {
    let r = client_rect(1280, 720);
    assert_eq!(r, Rect { left: 0, top: 0, right: 1280, bottom: 720 });
    // A typical overlapped-window frame: 8 px borders and a 23 px caption.
    let (fl, ft, fr, fb) = (8, 31, 8, 8);
    let adjusted = Rect {
        left: r.left - fl,
        top: r.top - ft,
        right: r.right + fr,
        bottom: r.bottom + fb,
    };
    let (w, h) = outer_size(adjusted);
    assert_eq!((w, h), (1296, 759));
    assert_eq!((w - fl - fr, h - ft - fb), (1280, 720));
}

#[test]
fn destroy_posts_quit() {
    assert_eq!(window_procedure(WM_DESTROY), WindowProcAction::PostQuit);
    assert_eq!(window_procedure(0x0010), WindowProcAction::Default);
    assert_eq!(window_procedure(WM_QUIT), WindowProcAction::Default);
    assert!(is_quit_message(WM_QUIT));
    assert!(!is_quit_message(WM_DESTROY));
}

#[test]
fn selects_first_nvidia_adapter() {
    let descs = vec![
        description("Intel(R) UHD Graphics 630"),
        description("NVIDIA GeForce RTX 3080"),
        description("nvidia second"),
    ];
    let r = select_adapter(&descs, &preferred_vendor());
    assert_eq!(r, Some(1));
    assert_eq!(driver_type(r), DriverType::Unknown);
}

#[test]
fn vendor_match_ignores_case() {
    let descs = vec![description("Microsoft Basic Render Driver"), description("nViDiA Quadro")];
    assert_eq!(select_adapter(&descs, &preferred_vendor()), Some(1));
    assert_eq!(select_adapter(&descs, &units("MICROSOFT")), Some(0));
}

#[test]
fn falls_back_to_hardware_when_none_match() {
    let descs = vec![description("AMD Radeon RX 6800"), description("Intel(R) Iris(R) Xe")];
    let r = select_adapter(&descs, &preferred_vendor());
    assert_eq!(r, None);
    assert_eq!(driver_type(r), DriverType::Hardware);
    assert_eq!(select_adapter(&Vec::new(), &preferred_vendor()), None);
    assert!(ADAPTER_LIMIT == 8);
}

#[test]
fn malformed_description_matches_nothing() {
    let mut d = units("NVIDIA ");
    d.push(0xD800);
    d.push(0x0041);
    assert!(!is_valid_utf16(&d));
    assert!(!description_matches_vendor(&d, &preferred_vendor()));
    let mut lone_low = vec![0xDC00u16];
    lone_low.extend(units("nvidia"));
    assert!(!is_valid_utf16(&lone_low));
    assert_eq!(select_adapter(&vec![d, lone_low], &preferred_vendor()), None);
}

#[test]
fn surrogate_pairs_are_well_formed() {
    let d = units("NVIDIA \u{1F600} card");
    assert!(is_valid_utf16(&d));
    assert!(description_matches_vendor(&d, &preferred_vendor()));
}

#[test]
fn ascii_lower_and_occurs() {
    assert_eq!(to_ascii_lower(&units("NVidia Ä")), units("nvidia Ä"));
    assert!(occurs(&units("abcde"), &units("cde")));
    assert!(occurs(&units("abc"), &units("")));
    assert!(!occurs(&units("ab"), &units("abc")));
    assert!(!occurs(&units("abcd"), &units("bd")));
    assert_eq!(preferred_vendor(), units("nvidia"));
}

#[test]
fn vertex_buffer_holds_four_float4_vertices() {
    let bytes = vertex_buffer_bytes();
    assert_eq!(bytes.len(), 64);
    let floats: Vec<f32> = bytes
        .chunks(4)
        .map(|c| f32::from_le_bytes([c[0], c[1], c[2], c[3]]))
        .collect();
    let expected: Vec<f32> = vec![
        0.0, -1.0, 0.0, 1.0, -1.0, 1.0, 0.0, 1.0, 1.0, 1.0, 0.0, 1.0, 1.0, -1.0, 0.0, 1.0,
    ];
    assert_eq!(floats, expected);
    let desc = vertex_buffer_desc();
    assert_eq!(desc.byte_width, 64);
    assert_eq!(desc.stride, 16);
    assert_eq!(desc.stride, VERTEX_STRIDE);
    assert_eq!(desc.offset, 0);
    assert_eq!(desc.usage, Usage::Immutable);
    assert_eq!(desc.bind, Bind::VertexBuffer);
    assert_eq!(vertex_words().len(), 16);
}

#[test]
fn le_bytes_order() {
    assert_eq!(to_le_bytes(&vec![0x0403_0201u32, 0xBF80_0000]), vec![1, 2, 3, 4, 0, 0, 0x80, 0xBF]);
    assert_eq!(to_le_bytes(&Vec::new()), Vec::<u8>::new());
}

#[test]
fn draw_uses_three_vertices_from_zero() {
    let d = draw_call();
    assert_eq!(d.vertex_count, 3);
    assert_eq!(d.start_vertex, 0);
    assert!(d.vertex_count < (vertex_buffer_bytes().len() as u32) / VERTEX_STRIDE);
}

#[test]
fn descriptions_follow_window() {
    let w = test_window(1280, 720);
    let t = depth_texture_desc(&w);
    assert_eq!((t.width, t.height, t.mip_levels, t.array_size), (1280, 720, 0, 1));
    assert_eq!((t.sample_count, t.sample_quality), (1, 0));
    assert_eq!(t.format, Format::D32Float);
    assert_eq!(t.usage, Usage::Default);
    assert_eq!(t.bind, Bind::DepthStencil);
    let s = swap_chain_desc(&w);
    assert_eq!((s.width, s.height, s.buffer_count, s.sample_count), (1280, 720, 1, 1));
    assert_eq!(s.format, Format::R8G8B8A8Unorm);
    assert_eq!(s.usage, Bind::RenderTargetOutput);
    let e = position_element();
    assert_eq!((e.semantic_index, e.input_slot, e.byte_offset), (0, 0, 0));
    assert_eq!(e.format, Format::R32G32B32A32Float);
}

fn run_setup() -> State {
    let (mut s, mut a) = start();
    assert_eq!(a, Action::Run(SetupStep::CreateWindow));
    let mut steps = 1;
    while let Action::Run(_) = a {
        let r = step(s, Event::Done);
        s = r.0;
        a = r.1;
        if let Action::Run(_) = a {
            steps += 1;
        }
    }
    assert_eq!(steps, 10);
    assert_eq!(a, Action::PeekMessage);
    s
}

#[test]
fn setup_runs_in_order() {
    assert_eq!(setup_successor(SetupStep::CreateWindow), Some(SetupStep::CreateDevice));
    assert_eq!(setup_successor(SetupStep::CreateShaders), Some(SetupStep::CreateInputLayout));
    assert_eq!(setup_successor(SetupStep::EnableDebugQueue), None);
    assert_eq!(run_setup(), State::Pumping);
}

#[test]
fn frame_drains_messages_then_renders() {
    let s = run_setup();
    let events = [
        (Event::NoMessage, Action::CountMessages),
        (Event::MessageCount(2), Action::QueryMessageSize { index: 0 }),
        (Event::MessageSize(40), Action::FetchMessage { index: 0, buffer_len: 40 }),
        (Event::Done, Action::QueryMessageSize { index: 1 }),
        (Event::MessageSize(113), Action::FetchMessage { index: 1, buffer_len: 113 }),
        (Event::Done, Action::ClearMessages),
        (Event::Done, Action::ClearTargets),
        (Event::Done, Action::Draw(draw_call())),
        (Event::Done, Action::Present { sync_interval: 0, flags: 0 }),
        (Event::Done, Action::PeekMessage),
    ];
    let mut s = s;
    for (e, expected) in events {
        let (n, a) = step(s, e);
        assert_eq!(a, expected);
        s = n;
    }
    assert_eq!(s, State::Pumping);
}

#[test]
fn empty_debug_queue_is_still_cleared() {
    let (s, a) = step(State::Counting, Event::MessageCount(0));
    assert_eq!(a, Action::ClearMessages);
    assert_eq!(s, State::ClearingMessages);
}

#[test]
fn setup_failure_aborts_before_loop() {
    let (s, a) = start();
    let (s, a2) = step(s, Event::Done);
    assert_eq!(a, Action::Run(SetupStep::CreateWindow));
    assert_eq!(a2, Action::Run(SetupStep::CreateDevice));
    let (s, a) = step(s, Event::Failed);
    assert_eq!((s, a), (State::Aborted, Action::Abort));
    for e in [Event::Done, Event::NoMessage, Event::Message { quit: false }] {
        assert_eq!(step(s, e), (State::Aborted, Action::Abort));
    }
    let (s, a) = step(State::Setup(SetupStep::CreateVertexBuffer), Event::Failed);
    assert_eq!((s, a), (State::Aborted, Action::Abort));
    let (s, a) = step(State::Setup(SetupStep::CreateShaders), Event::Failed);
    assert_eq!((s, a), (State::Aborted, Action::Abort));
}

#[test]
fn failed_message_fetch_or_present_aborts() {
    let s = State::Fetching { index: 0, count: 3, size: 8 };
    assert_eq!(step(s, Event::Failed), (State::Aborted, Action::Abort));
    assert_eq!(step(State::Presenting, Event::Failed), (State::Aborted, Action::Abort));
}

#[test]
fn destroy_then_quit_ends_loop() {
    // The destroy notification is dispatched during a poll; the window
    // procedure posts a quit, and the loop goes on to render that frame.
    assert_eq!(window_procedure(WM_DESTROY), WindowProcAction::PostQuit);
    let (s, a) = step(State::Pumping, Event::Message { quit: is_quit_message(WM_DESTROY) });
    assert_eq!(a, Action::CountMessages);
    let (s, _) = step(s, Event::MessageCount(0));
    let (s, _) = step(s, Event::Done);
    let (s, _) = step(s, Event::Done);
    let (s, _) = step(s, Event::Done);
    let (s, a) = step(s, Event::Done);
    assert_eq!(a, Action::PeekMessage);
    // The next poll takes the quit message: the loop ends there.
    let (s, a) = step(s, Event::Message { quit: is_quit_message(WM_QUIT) });
    assert_eq!((s, a), (State::Exited, Action::Exit));
    for e in [Event::Done, Event::NoMessage] {
        assert_eq!(step(s, e), (State::Exited, Action::Exit));
    }
}
