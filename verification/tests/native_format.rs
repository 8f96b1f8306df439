use vibe_extract_core::bundle::{BundleSummary, NibFile};
use vibe_extract_core::native_format::{
    assemble_native_capture, collect_palette, count_nodes, emit_html, emit_toon, native_capture, render_html_boxes,
    AxNode, RoundedRect,
};

fn rect(x: &str, y: &str, w: &str, h: &str) -> RoundedRect {
    RoundedRect { x: x.to_string(), y: y.to_string(), w: w.to_string(), h: h.to_string() }
}

fn leaf(role: &str, name: &str, bg: Option<(u8, u8, u8)>) -> AxNode {
    AxNode {
        role: role.to_string(),
        subrole: None,
        name: name.to_string(),
        identifier: None,
        value: None,
        role_description: None,
        bounds: None,
        html_box: None,
        bg,
        children: vec![],
    }
}

fn sample_tree() -> AxNode {
    let mut button = leaf("AXButton", "Say \"hi\"", Some((250, 250, 250)));
    button.subrole = Some("AXCloseButton".to_string());
    button.value = Some("v".to_string());
    button.identifier = Some("btn1".to_string());
    button.role_description = Some("button".to_string());
    button.html_box = Some(rect("5", "6", "40", "20"));
    let mut root = leaf("AXWindow", "Main", Some((255, 255, 255)));
    root.bounds = Some(rect("10", "20", "300", "200"));
    root.html_box = Some(rect("0", "0", "300", "200"));
    root.children = vec![button, leaf("AXStaticText", "", Some((0, 0, 0)))];
    root
}

#[test]
fn palette_skips_near_colours_in_preorder() {
    let t = sample_tree();
    let mut pal = Vec::new();
    collect_palette(&t, &mut pal);
    assert_eq!(pal, vec![(255, 255, 255), (0, 0, 0)]);
    // a colour seven apart on every channel is still near; eight apart is not
    let mut pal2 = vec![(100, 100, 100)];
    collect_palette(&leaf("A", "", Some((107, 93, 107))), &mut pal2);
    assert_eq!(pal2.len(), 1);
    collect_palette(&leaf("A", "", Some((108, 100, 100))), &mut pal2);
    assert_eq!(pal2, vec![(100, 100, 100), (108, 100, 100)]);
}

#[test]
fn toon_document_layout() {
    let t = sample_tree();
    let pal = vec![(255, 255, 255), (0, 0, 0)];
    let s = emit_toon(&t, &pal, Some("/Applications/X.app"), Some("Main"), None);
    let expected = "# VibeExtract — Native Desktop Capture\n\n## Source\n- App: /Applications/X.app\n- Window: \"Main\"\n\n## Palette\n.c1: #ffffff\n.c2: #000000\n\n## Structure\nAXWindow \"Main\" pos=(10,20) size=(300x200) bg=#ffffff {\n  AXButton:AXCloseButton \"Say \\\"hi\\\"\" value=\"v\" bg=#fafafa #btn1 (button)\n  AXStaticText bg=#000000\n}\n";
    assert_eq!(s, expected);
}

#[test]
fn toon_without_source_or_palette() {
    let t = leaf("AXGroup", "", None);
    let s = emit_toon(&t, &vec![], None, None, None);
    assert_eq!(s, "# VibeExtract — Native Desktop Capture\n\n## Source\n\n## Structure\nAXGroup\n");
}

#[test]
fn toon_truncates_names_and_values_to_eighty_characters() {
    let long: String = std::iter::repeat('x').take(100).collect();
    let mut n = leaf("AXStaticText", &long, None);
    n.value = Some(long.clone());
    n.children = vec![];
    let s = emit_toon(&n, &vec![], None, None, None);
    let eighty: String = std::iter::repeat('x').take(80).collect();
    assert!(s.ends_with(&format!("AXStaticText \"{}\" value=\"{}\"\n", eighty, eighty)));
}

#[test]
fn toon_lists_bundle_identity_and_nibs() {
    let mut b = BundleSummary::empty();
    b.bundle_id = Some("com.example.App".to_string());
    b.display_name = Some("Example".to_string());
    b.nibs = vec![
        NibFile { name: "MainMenu.nib".to_string(), hierarchy_xml: "<x/>".to_string() },
        NibFile { name: "Prefs.nib".to_string(), hierarchy_xml: "<y/>".to_string() },
    ];
    let s = emit_toon(&leaf("AXWindow", "", None), &vec![], None, None, Some(&b));
    assert!(s.contains(
        "## Source\n- Bundle-ID: com.example.App\n- App name: Example\n- NIBs recovered: MainMenu.nib, Prefs.nib\n\n## Structure\n"
    ));
}

#[test]
fn html_boxes_escape_and_label() {
    let t = sample_tree();
    let mut out = String::new();
    render_html_boxes(&t, &mut out);
    let expected = "<div class=\"ax-box\" data-role=\"AXWindow\" style=\"left:0px; top:0px; width:300px; height:200px; background-color: rgba(255, 255, 255, 0.10);\" title=\"AXWindow &quot;Main&quot;\">Main</div>\n<div class=\"ax-box\" data-role=\"AXButton\" style=\"left:5px; top:6px; width:40px; height:20px; background-color: rgba(250, 250, 250, 0.10);\" title=\"AXButton &quot;Say &amp;quot;hi&amp;quot;&quot;\">Say &quot;hi&quot;</div>\n";
    assert_eq!(out, expected);
}

#[test]
fn html_page_embeds_size_screenshot_and_boxes() {
    let t = leaf("AXGroup", "", None);
    let html = emit_html(&t, "QUJD", "640", "480");
    assert!(html.starts_with("<!DOCTYPE html>\n<html>\n<head>\n  <meta charset=\"UTF-8\">\n  <title>VibeExtract — Native Capture</title>"));
    assert!(html.contains(".replica { position: relative; width: 640px; height: 480px; background: #fff;"));
    assert!(html.contains("root: 640 × 480 pt</span>"));
    assert!(html.contains("<img class=\"bg\" src=\"data:image/png;base64,QUJD\">\n        \n      </div>"));
    assert!(html.ends_with("</script>\n</body>\n</html>\n"));
}

#[test]
fn native_capture_encodes_screenshot_and_reports() {
    let t = sample_tree();
    let c = native_capture(&t, Some("/A"), None, None, &[1u8, 2, 3], "300", "200");
    assert_eq!(c.strategy, "native_ax");
    assert_eq!(c.fidelity, "Native AX + sampled colors + screenshot");
    assert_eq!(c.screenshot_png_b64, Some("AQID".to_string()));
    assert_eq!(c.diagnostics, vec!["Captured 3 AX nodes".to_string()]);
    assert!(c.html.contains("base64,AQID\">"));
    assert!(c.toon.contains("## Palette\n.c1: #ffffff\n.c2: #000000\n\n"));
}

#[test]
fn native_capture_with_bundle_nibs() {
    let mut b = BundleSummary::empty();
    b.nibs = vec![NibFile { name: "MainMenu.nib".to_string(), hierarchy_xml: String::new() }];
    b.assets_car_summary = Some("assets".to_string());
    b.diagnostics = vec!["ibtool failed on X.nib: boom".to_string()];
    let c = assemble_native_capture(&leaf("AXWindow", "", None), None, None, Some(&b), "Zm9v".to_string(), "1", "1");
    assert_eq!(c.fidelity, "Native AX + NIB-resolved + sampled colors");
    assert_eq!(
        c.diagnostics,
        vec![
            "Captured 1 AX nodes".to_string(),
            "Bundle: 1 nibs, assets_car=true".to_string(),
            "ibtool failed on X.nib: boom".to_string(),
        ]
    );
    assert_eq!(c.screenshot_png_b64, Some("Zm9v".to_string()));
}

#[test]
fn node_count_counts_every_node() {
    assert_eq!(count_nodes(&sample_tree()), 3);
    assert_eq!(count_nodes(&leaf("A", "", None)), 1);
}

#[test]
fn screenshot_base64_pads_short_groups() {
    let t = leaf("AXGroup", "", None);
    let b64 = |bytes: &[u8]| native_capture(&t, None, None, None, bytes, "1", "1").screenshot_png_b64.unwrap();
    assert_eq!(b64(&[]), "");
    assert_eq!(b64(&[255]), "/w==");
    assert_eq!(b64(&[1, 2]), "AQI=");
    assert_eq!(b64(b"Man is"), "TWFuIGlz");
    assert_eq!(b64(&[0xfb, 0xff]), "+/8=");
}
