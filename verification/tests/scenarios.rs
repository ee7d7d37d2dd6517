use renderer::commands::{AtlasCreate, AtlasRectChunk, Command, Sprite};
use renderer::queue::Renderer;

#[test]
fn frame_with_two_sprites_drains_in_order() {
    let s1 = Sprite {
        atlas: 0,
        src_x: 0,
        src_y: 0,
        src_w: 8,
        src_h: 8,
        x: 10,
        y: 10,
    };
    let s2 = Sprite {
        atlas: 0,
        src_x: 8,
        src_y: 0,
        src_w: 8,
        src_h: 8,
        x: 20,
        y: 10,
    };

    let mut r = Renderer::new();
    r.init(800, 600);
    r.begin_frame(None);
    r.draw_sprite(s1);
    r.draw_sprite(s2);
    r.end_frame();
    assert_eq!(
        r.get_commands(),
        vec![
            Command::BeginFrame(None),
            Command::DrawSprite(s1),
            Command::DrawSprite(s2),
            Command::EndFrame,
        ]
    );
    assert_eq!(r.get_commands(), Vec::<Command>::new());
}

#[test]
fn atlas_upload_survives_an_interleaved_resize() {
    let a = AtlasCreate { id: 5, width: 128, height: 128 };
    let c1 = AtlasRectChunk {
        id: 5,
        x: 0,
        y: 0,
        width: 1,
        height: 1,
        pixels: vec![0, 0, 0, 255],
    };
    let c2 = AtlasRectChunk {
        id: 5,
        x: 1,
        y: 0,
        width: 1,
        height: 1,
        pixels: vec![255, 255, 255, 255],
    };

    let mut r = Renderer::new();
    r.create_atlas(a);
    r.upload_atlas_chunk(c1.clone());
    r.resize(1024, 768);
    r.upload_atlas_chunk(c2.clone());
    r.finalize_atlas(a.id);
    assert_eq!(
        r.get_commands(),
        vec![
            Command::CreateAtlas(a),
            Command::UploadAtlasChunk(c1),
            Command::UploadAtlasChunk(c2),
            Command::FinalizeAtlas(5),
        ]
    );
    assert_eq!(r.width(), 1024);
    assert_eq!(r.height(), 768);
}

#[test]
fn init_before_first_drain_discards_everything() {
    let mut r = Renderer::new();
    r.push(Command::BeginFrame(Some(0)));
    r.push(Command::EndFrame);
    r.init(100, 100);
    assert_eq!(r.get_commands(), Vec::<Command>::new());
}
