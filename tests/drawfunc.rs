use libogl::drawfunc::{DrawFunc, DEMO_COUNT};

#[test]
fn drawfunc_to_usize() {
    let index: usize = (&DrawFunc::DrawVbo).into();
    assert_eq!(index, 1);

    let index: usize = (&DrawFunc::DrawModelViewProjection).into();
    assert_eq!(index, 17);
}

#[test]
fn usize_to_drawfunc_and_back() {
    for i in 1..=DEMO_COUNT {
        let f: DrawFunc = i.into();
        assert_ne!(f, DrawFunc::InvalidDrawFunc);
        let back: usize = (&f).into();
        assert_eq!(back, i);
    }
    assert_eq!(DrawFunc::from(1usize), DrawFunc::DrawVbo);
    assert_eq!(DrawFunc::from(21usize), DrawFunc::DrawTextureMipMapping);
}

#[test]
fn out_of_table_index_is_invalid() {
    assert_eq!(DrawFunc::from(0usize), DrawFunc::InvalidDrawFunc);
    assert_eq!(DrawFunc::from(22usize), DrawFunc::InvalidDrawFunc);
    assert_eq!(DrawFunc::from(999usize), DrawFunc::InvalidDrawFunc);
    assert_eq!(DrawFunc::InvalidDrawFunc.index(), 22);
}

#[test]
fn demo_labels() {
    assert_eq!(DrawFunc::DrawVbo.to_string(), "  1_DrawVbo");
    assert_eq!(DrawFunc::DrawVbo2.to_string(), "  2_DrawVbo2");
    assert_eq!(DrawFunc::DrawVboVertexColor.to_string(), "3_DrawVboVertexColor");
    assert_eq!(
        DrawFunc::DrawVaoVertexColorElement2.to_string(),
        "7, DrawVaoVertexColorElement2"
    );
    assert_eq!(
        DrawFunc::DrawModelViewProjection.to_string(),
        "17_DrawModelViewProjection"
    );
    assert_eq!(DrawFunc::DrawTextureMipMapping.name(), "DrawTextureMipMapping");
}

#[test]
fn listing_holds_every_demo_in_order() {
    let all = DrawFunc::all();
    assert_eq!(all.len(), 21);
    assert_eq!(all[0], DrawFunc::DrawVbo);
    assert_eq!(all[16], DrawFunc::DrawModelViewProjection);
    assert_eq!(all[20], DrawFunc::DrawTextureMipMapping);
    assert!(!all.contains(&DrawFunc::InvalidDrawFunc));
}
