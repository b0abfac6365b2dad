use assimp::material::{
    BlendMode, Material, MaterialProperty, PropertyTypeInfo, ShadingMode, TextureFlags,
    TextureMapMode, TextureMapping, TextureOp, TextureType, AI_TEXTURE_TYPE_MAX,
};

#[test]
fn texture_codes() {
    assert_eq!(TextureOp::Multiply.code(), 0);
    assert_eq!(TextureOp::SignedAdd.code(), 5);
    assert_eq!(TextureMapMode::Decal.code(), 3);
    assert_eq!(TextureMapMode::Mirror.code(), 2);
    assert_eq!(TextureMapping::Other.code(), 5);
    assert_eq!(TextureType::NoTexture.code(), 0);
    assert_eq!(TextureType::Lightmap.code(), 10);
    assert_eq!(TextureType::Unknown.code(), AI_TEXTURE_TYPE_MAX);
    assert_eq!(TextureFlags::IgnoreAlpha.code(), 4);
}

#[test]
fn shading_and_blend_codes() {
    assert_eq!(ShadingMode::Flat.code(), 1);
    assert_eq!(ShadingMode::Fresnel.code(), 10);
    assert_eq!(BlendMode::Default.code(), 0);
    assert_eq!(BlendMode::Additive.code(), 1);
    assert_eq!(PropertyTypeInfo::PtiFloat.code(), 1);
    assert_eq!(PropertyTypeInfo::PtiString.code(), 3);
    assert_eq!(PropertyTypeInfo::PtiBuffer.code(), 5);
}

#[test]
fn material_property_table() {
    let prop = MaterialProperty::new(
        "$tex.file".to_string(),
        TextureType::Diffuse.code(),
        0,
        PropertyTypeInfo::PtiBuffer,
        vec![1, 2, 3],
    )
    .unwrap();
    assert_eq!(prop.semantic(), 1);
    assert_eq!(prop.index(), 0);
    assert_eq!(prop.type_info(), PropertyTypeInfo::PtiBuffer);
    assert_eq!(prop.get_data(), &[1u8, 2, 3][..]);
    let mat = Material { properties: vec![prop] };
    assert_eq!(mat.get_properties().len(), 1);
    assert_eq!(mat.get_properties()[0].key(), "$tex.file");
    let empty = MaterialProperty::new("$mat.name".to_string(), 0, 0, PropertyTypeInfo::PtiString, vec![]);
    assert!(empty.is_none());
}
