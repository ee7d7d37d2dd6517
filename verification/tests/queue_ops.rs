use renderer::commands::{AtlasCreate, AtlasRectChunk, BlendMode, Camera, Command, Sprite, Tiles};
use renderer::queue::Renderer;

#[test]
fn new_renderer_is_empty_and_zeroed() {
    let mut r = Renderer::new();
    assert_eq!(r.width(), 0);
    assert_eq!(r.height(), 0);
    assert_eq!(r.pending_len(), 0);
    assert_eq!(r.get_commands(), Vec::<Command>::new());
}

#[test]
fn fifo_order_is_kept() {
    let mut r = Renderer::new();
    r.push(Command::BeginFrame(Some(0xff00ff00)));
    r.push(Command::SetBlend(BlendMode::Additive));
    r.push(Command::EndFrame);
    assert_eq!(r.pending_len(), 3);
    let out = r.get_commands();
    assert_eq!(
        out,
        vec![
            Command::BeginFrame(Some(0xff00ff00)),
            Command::SetBlend(BlendMode::Additive),
            Command::EndFrame,
        ]
    );
    assert_eq!(r.get_commands(), Vec::<Command>::new());
}

#[test]
fn drains_together_return_every_command_once() {
    let mut r = Renderer::new();
    r.push(Command::BeginFrame(None));
    r.push(Command::FinalizeAtlas(3));
    let first = r.get_commands();
    r.push(Command::EndFrame);
    let second = r.get_commands();
    let mut all = first;
    all.extend(second);
    assert_eq!(
        all,
        vec![
            Command::BeginFrame(None),
            Command::FinalizeAtlas(3),
            Command::EndFrame,
        ]
    );
}

#[test]
fn init_resets_queue_and_viewport() {
    let mut r = Renderer::new();
    r.push(Command::EndFrame);
    r.push(Command::FinalizeAtlas(1));
    r.init(640, 480);
    assert_eq!(r.width(), 640);
    assert_eq!(r.height(), 480);
    assert_eq!(r.get_commands(), Vec::<Command>::new());
}

#[test]
fn resize_keeps_pending_commands() {
    let mut r = Renderer::new();
    r.push(Command::BeginFrame(None));
    r.push(Command::EndFrame);
    r.resize(320, 200);
    assert_eq!(r.width(), 320);
    assert_eq!(r.height(), 200);
    assert_eq!(
        r.get_commands(),
        vec![Command::BeginFrame(None), Command::EndFrame]
    );
}

#[test]
fn second_drain_in_a_row_is_empty() {
    let mut r = Renderer::new();
    r.push(Command::EndFrame);
    let first = r.get_commands();
    assert!(!first.is_empty());
    assert!(r.get_commands().is_empty());
}

#[test]
fn producer_operations_wrap_their_payloads() {
    let cam = Camera { x: -4, y: 12, zoom: 1 << 16 };
    let atlas = AtlasCreate { id: 9, width: 256, height: 256 };
    let chunk = AtlasRectChunk {
        id: 9,
        x: 0,
        y: 16,
        width: 2,
        height: 1,
        pixels: vec![1, 2, 3, 4, 5, 6, 7, 8],
    };
    let sprite = Sprite {
        atlas: 9,
        src_x: 0,
        src_y: 0,
        src_w: 16,
        src_h: 16,
        x: 100,
        y: -8,
    };
    let tiles = Tiles {
        atlas: 9,
        tile_w: 8,
        tile_h: 8,
        x: 0,
        y: 0,
        columns: 2,
        indices: vec![0, 1, 1, 0],
    };

    let mut r = Renderer::new();
    r.begin_frame(Some(7));
    r.set_blend(BlendMode::Multiply);
    r.set_camera(cam);
    r.create_atlas(atlas);
    r.upload_atlas_chunk(chunk.clone());
    r.finalize_atlas(9);
    r.draw_sprite(sprite);
    r.draw_tiles(tiles.clone());
    r.end_frame();
    assert_eq!(
        r.get_commands(),
        vec![
            Command::BeginFrame(Some(7)),
            Command::SetBlend(BlendMode::Multiply),
            Command::SetCamera(cam),
            Command::CreateAtlas(atlas),
            Command::UploadAtlasChunk(chunk),
            Command::FinalizeAtlas(9),
            Command::DrawSprite(sprite),
            Command::DrawTiles(tiles),
            Command::EndFrame,
        ]
    );
}

#[test]
fn init_overwrites_an_earlier_viewport() {
    let mut r = Renderer::new();
    r.init(800, 600);
    r.init(100, 100);
    assert_eq!(r.width(), 100);
    assert_eq!(r.height(), 100);
}

#[test]
fn pending_len_tracks_enqueues_and_drains() {
    let mut r = Renderer::new();
    assert_eq!(r.pending_len(), 0);
    r.push(Command::EndFrame);
    assert_eq!(r.pending_len(), 1);
    r.push(Command::BeginFrame(None));
    assert_eq!(r.pending_len(), 2);
    r.get_commands();
    assert_eq!(r.pending_len(), 0);
}
