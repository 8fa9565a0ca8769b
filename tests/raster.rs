use scieldas::services::crates::{crate_downloads, crate_url};
use scieldas::{
    to_raster, to_vector, ContentType, PayloadCache, RasterCache, RenderFailure, RenderableScield,
    Scield, ScieldRequest, Shield, SupportedFiletype, TextScield, TextShield,
};
use serde_json::Value;

const PNG_MAGIC: [u8; 8] = [137, 80, 78, 71, 13, 10, 26, 10];

#[test]
fn rasterises_a_badge() {
    let fonts = usvg::Options::default();
    let png = to_raster(&to_vector("Stars :: 42"), &fonts).unwrap();
    assert_eq!(png[..8], PNG_MAGIC);
}

#[test]
fn scield_png() {
    let fonts = usvg::Options::default();
    let s = Scield {
        scield: TextScield { prefix: "Stars", suffix: None },
        value: 42i64,
        filetype: SupportedFiletype::Png,
    };
    assert_eq!(s.to_png(&fonts).unwrap()[..8], PNG_MAGIC);
}

#[test]
fn malformed_document_fails() {
    let fonts = usvg::Options::default();
    assert_eq!(to_raster("<svg", &fonts).err(), Some(RenderFailure::InvalidDocument));
}

#[test]
fn oversized_document_fails() {
    let fonts = usvg::Options::default();
    let svg = r#"<svg xmlns="http://www.w3.org/2000/svg" width="600000000" height="1"></svg>"#;
    assert_eq!(to_raster(svg, &fonts).err(), Some(RenderFailure::InvalidSize));
}

#[test]
fn second_raster_is_served_from_cache() {
    let fonts = usvg::Options::default();
    let mut images = RasterCache::new();
    let svg = to_vector("Stars :: 42");
    let first = images.rasterize(&svg, &fonts).unwrap();
    assert_eq!(images.renders(), 1);
    let second = images.rasterize(&svg, &fonts).unwrap();
    assert_eq!(images.renders(), 1);
    assert_eq!(first, second);
}

#[test]
fn failed_render_is_not_kept() {
    let fonts = usvg::Options::default();
    let mut images = RasterCache::new();
    let bad = "not svg".to_string();
    assert!(images.rasterize(&bad, &fonts).is_err());
    assert!(images.rasterize(&bad, &fonts).is_err());
    assert_eq!(images.renders(), 2);
    assert_eq!(images.lookup(&bad), None);
}

#[test]
fn responder_dispatches_on_filetype() {
    let fonts = usvg::Options::default();
    let mut images = RasterCache::new();
    let scield = |filetype| Scield {
        scield: TextScield { prefix: "Stars", suffix: None },
        value: 42i64,
        filetype,
    };
    let out = scield(SupportedFiletype::Txt).respond_to(&fonts, &mut images).unwrap();
    assert_eq!(out.content_type, ContentType::Plain);
    assert_eq!(out.content_type.mime(), "text/plain");
    assert_eq!(out.body, b"Stars :: 42".to_vec());
    let out = scield(SupportedFiletype::Svg).respond_to(&fonts, &mut images).unwrap();
    assert_eq!(out.content_type.mime(), "image/svg+xml");
    assert_eq!(out.body, to_vector("Stars :: 42").into_bytes());
    assert_eq!(images.renders(), 0);
    let out = scield(SupportedFiletype::Png).respond_to(&fonts, &mut images).unwrap();
    assert_eq!(out.content_type.mime(), "image/png");
    assert_eq!(out.body[..8], PNG_MAGIC);
    assert_eq!(images.renders(), 1);
}

#[test]
fn shield_png() {
    let fonts = usvg::Options::default();
    let shield = Shield {
        shield: TextShield { prefix: "Release", suffix: None },
        value: "v1".to_string(),
        filetype: SupportedFiletype::Png,
    };
    assert_eq!(shield.to_png(&fonts).unwrap()[..8], PNG_MAGIC);
    let mut images = RasterCache::new();
    let out = shield.respond_to(&fonts, &mut images).unwrap();
    assert_eq!(out.content_type, ContentType::Png);
}

/// Serves `url` from the cache, or fetches it (counting the fetch) and keeps it.
fn fetch(cache: &mut PayloadCache, url: &str, now: u64, calls: &mut u32) -> Option<Value> {
    let key = url.to_string();
    match cache.get(&key, now) {
        Some(p) => p,
        None => {
            *calls += 1;
            let p = Some(serde_json::from_str::<Value>(r#"{"crate":{"downloads":1234567}}"#).unwrap());
            cache.insert(key, p.clone(), now);
            p
        }
    }
}

#[test]
fn end_to_end_downloads_badge() {
    let fonts = usvg::Options::default();
    let mut payloads = PayloadCache::new();
    let mut images = RasterCache::new();
    let mut calls = 0;

    let request = ScieldRequest::from_param("rand.png").unwrap();
    assert_eq!(request.body, "rand");
    let url = crate_url(&request.body);
    let payload = fetch(&mut payloads, &url, 50, &mut calls);
    let badge = crate_downloads(&payload, request);
    let text = badge.scield.render(&badge.value);
    assert_eq!(text, "Downloads :: 1m");
    assert_eq!(text.len() * 7 + 32, 137);
    assert!(badge.to_svg().contains(r#"width="137px""#));
    let first = badge.respond_to(&fonts, &mut images).unwrap();
    assert_eq!(first.content_type, ContentType::Png);
    assert_eq!(first.content_type.mime(), "image/png");
    assert_eq!(first.body[..8], PNG_MAGIC);
    assert_eq!((calls, images.renders()), (1, 1));

    let again = ScieldRequest::from_param("rand.png").unwrap();
    let payload = fetch(&mut payloads, &crate_url(&again.body), 51, &mut calls);
    let badge = crate_downloads(&payload, again);
    let second = badge.respond_to(&fonts, &mut images).unwrap();
    assert_eq!(second.body, first.body);
    assert_eq!((calls, images.renders()), (1, 1));
}
