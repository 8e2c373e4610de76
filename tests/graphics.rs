use twitch_tui::cache::EmoteCache;
use twitch_tui::decode::declared_size;
use twitch_tui::graphics::{render_all, Clear, Directive};
use twitch_tui::images::{
    emote_columns, placement_id,
    AnimatedImage, Decoding, Display, EmoteData, Format, Load, LoadError, Size, StaticImage,
};

fn field(directive: &str, key: &str) -> Option<u32> {
    let start = directive.find("_G")? + 2;
    let end = directive.find(';')?;
    directive[start..end]
        .split(',')
        .find_map(|kv| kv.strip_prefix(&format!("{key}=")))
        .and_then(|v| v.parse().ok())
}

#[test]
fn static_image_transmit_directive() {
    let img = StaticImage::new(1, 28, 30, "/tmp/a".to_string());
    let mut s = String::new();
    img.write_ansi(&mut s);
    assert_eq!(s, "\x1b_Ga=t,t=t,f=32,s=28,v=30,i=1,q=2;L3RtcC9h\x1b\\");
    assert_eq!(img.size(), (28, 30));
}

#[test]
fn transmit_directive_declares_true_dimensions() {
    for (w, h) in [(1u32, 1u32), (28, 28), (112, 56), (4000, 3)] {
        let img = StaticImage::new(9, w, h, "/tmp/a".to_string());
        let mut s = String::new();
        img.write_ansi(&mut s);
        assert_eq!((field(&s, "s"), field(&s, "v")), (Some(w), Some(h)));
        assert_eq!(declared_size(&s), Some((w, h)));
    }
}

#[test]
fn declared_size_of_other_texts() {
    assert_eq!(declared_size("\x1b_Ga=a,i=1,s=3,v=1,q=2;\x1b\\"), Some((3, 1)));
    assert_eq!(declared_size("\x1b_Ga=d,d=A,q=2;\x1b\\"), None);
    assert_eq!(declared_size("a=t,s=1,v=2;"), None);
    assert_eq!(declared_size("\x1b_Gs=4294967296,v=1;"), None);
    assert_eq!(declared_size("\x1b_Gs=7,v=9"), Some((7, 9)));
    let staged = vec![Some(("/tmp/f0".to_string(), 40)), Some(("/tmp/f1".to_string(), 60))];
    if let Ok(img) = AnimatedImage::new(7, 20, 30, staged) {
        let mut s = String::new();
        img.write_ansi(&mut s);
        assert_eq!(declared_size(&s), Some((20, 30)));
    }
}

#[test]
fn animated_image_directives() {
    let staged = vec![Some(("/tmp/f0".to_string(), 40)), Some(("/tmp/f1".to_string(), 60))];
    let img = match AnimatedImage::new(7, 2, 3, staged) {
        Ok(img) => img,
        Err(_) => panic!("two staged frames make an animation"),
    };
    let mut s = String::new();
    img.write_ansi(&mut s);
    assert_eq!(
        s,
        [
            "\x1b_Ga=t,t=t,f=32,s=2,v=3,i=7,q=2;L3RtcC9mMA==\x1b\\",
            "\x1b_Ga=a,i=7,r=1,z=40,q=2;\x1b\\",
            "\x1b_Ga=f,t=t,f=32,s=2,v=3,i=7,z=60,q=2;L3RtcC9mMQ==\x1b\\",
            "\x1b_Ga=a,i=7,s=3,v=1,q=2;\x1b\\",
        ]
        .join("")
    );
    assert_eq!(img.staged_files(), vec!["/tmp/f0".to_string(), "/tmp/f1".to_string()]);
}

#[test]
fn animation_with_a_failed_frame_lists_staged_files() {
    let staged = vec![Some(("/tmp/f0".to_string(), 40)), None, Some(("/tmp/f1".to_string(), 60))];
    match AnimatedImage::new(7, 2, 3, staged) {
        Err(LoadError::InvalidFrame(paths)) => {
            assert_eq!(paths, vec!["/tmp/f0".to_string(), "/tmp/f1".to_string()])
        }
        _ => panic!("a failed frame fails the animation"),
    }
}

#[test]
fn animation_without_frames_is_refused() {
    assert!(matches!(AnimatedImage::new(7, 2, 3, vec![]), Err(LoadError::NoFrames)));
}

#[test]
fn decoding_by_format() {
    assert!(matches!(Load::decoding(None, false), Err(LoadError::UnknownFormat)));
    assert!(matches!(Load::decoding(Some(Format::Gif), false), Ok(Decoding::Frames)));
    assert!(matches!(Load::decoding(Some(Format::WebP), true), Ok(Decoding::Frames)));
    assert!(matches!(Load::decoding(Some(Format::WebP), false), Ok(Decoding::Still)));
    assert!(matches!(Load::decoding(Some(Format::Other), true), Ok(Decoding::Still)));
}

#[test]
fn display_directive_moves_then_places() {
    let emote = EmoteData { id: 3, pid: 4, layer: 1 };
    let d = Display::new((10, 2), &emote, 2, 5);
    let mut s = String::new();
    d.write_ansi(&mut s);
    assert_eq!(s, "\x1b[3;11H\x1b_Ga=p,i=3,p=4,r=1,c=2,X=5,z=1,q=2;\x1b\\");
}

#[test]
fn clear_directives() {
    let render = |c: Clear| {
        let mut s = String::new();
        c.write_ansi(&mut s);
        s
    };
    assert_eq!(render(Clear(0, 0)), "\x1b_Ga=d,d=A,q=2;\x1b\\");
    assert_eq!(render(Clear(0, 5)), "\x1b_Ga=d,d=a,q=2;\x1b\\");
    assert_eq!(render(Clear(12, 5)), "\x1b_Ga=d,d=i,i=12,p=5,q=2;\x1b\\");
}

#[test]
fn query_directive_asks_for_attributes_after() {
    assert_eq!(
        Directive::Query.render(),
        "\x1b_Gi=31,s=1,v=1,a=q,t=d,f=24;QUFBQQ==\x1b\\\x1b[c"
    );
    let both = render_all(&vec![Directive::Animate { id: 1 }, Directive::Delete(Clear(0, 0))]);
    assert_eq!(both, "\x1b_Ga=a,i=1,s=3,v=1,q=2;\x1b\\\x1b_Ga=d,d=A,q=2;\x1b\\");
}

#[test]
fn cache_places_only_loaded_images() {
    let mut cache = EmoteCache::new();
    let emote = EmoteData { id: 3, pid: 4, layer: 0 };
    let d = Display::new((0, 0), &emote, 2, 0);
    assert!(cache.place(&d).is_none());
    let out = cache.load(Load::Static(StaticImage::new(3, 1, 1, "/tmp/a".to_string())));
    assert!(out.starts_with("\x1b_Ga=t"));
    assert!(cache.is_loaded(3));
    assert!(cache.place(&d).is_some());
}

#[test]
fn invalidating_twice_leaves_cache_empty() {
    let mut cache = EmoteCache::new();
    cache.load(Load::Static(StaticImage::new(3, 1, 1, "/tmp/a".to_string())));
    let first = cache.invalidate();
    assert!(!cache.is_loaded(3));
    assert_eq!(first.staged, vec!["/tmp/a".to_string()]);
    assert_eq!(first.directive, "\x1b_Ga=d,d=A,q=2;\x1b\\");
    let second = cache.invalidate();
    assert!(!cache.is_loaded(3));
    assert!(second.staged.is_empty());
    assert_eq!(second.directive, first.directive);
}

#[test]
fn resize_drops_every_image_before_redraw() {
    let mut cache = EmoteCache::new();
    assert!(cache.prepare_redraw((80, 24)).is_some());
    cache.load(Load::Static(StaticImage::new(3, 1, 1, "/tmp/a".to_string())));
    let d = Display::new((0, 0), &EmoteData { id: 3, pid: 1, layer: 0 }, 2, 0);
    assert!(cache.place(&d).is_some());
    assert!(cache.prepare_redraw((80, 24)).is_none());
    assert!(cache.is_loaded(3));
    let inv = cache.prepare_redraw((100, 30));
    assert!(inv.is_some());
    assert!(!cache.is_loaded(3));
    assert!(cache.place(&d).is_none());
}

#[test]
fn emote_width_in_cells_and_placement_ids() {
    assert_eq!(emote_columns(28, 10), 3);
    assert_eq!(emote_columns(30, 10), 3);
    assert_eq!(emote_columns(0, 10), 1);
    assert_eq!(emote_columns(7, 0), 7);
    assert_eq!(emote_columns(u32::MAX, 1), u16::MAX);
    assert_eq!(placement_id(0, 0), 1);
    assert_eq!(placement_id(5, 2), 2 * 65536 + 5);
}
