//! Material descriptions: texture, shading and blending enumerations and the
//! property table of a material.

use vstd::prelude::*;

verus! {

/// How the n-th texture of a type is combined with the result of all
/// earlier layers.
#[derive(Clone, Copy, PartialEq, Eq, Debug, Structural)]
pub enum TextureOp {
    /// `T = T1 * T2`
    Multiply,
    /// `T = T1 + T2`
    Add,
    /// `T = T1 - T2`
    Subtract,
    /// `T = T1 / T2`
    Divide,
    /// `T = (T1 + T2) - (T1 * T2)`
    SmoothAdd,
    /// `T = T1 + (T2 - 0.5)`
    SignedAdd,
}

impl TextureOp {
    /// The numeric code of this value in the importer's interface.
    pub fn code(self) -> (r: u32)
        ensures
            r == match self {
                TextureOp::Multiply => 0u32,
                TextureOp::Add => 1u32,
                TextureOp::Subtract => 2u32,
                TextureOp::Divide => 3u32,
                TextureOp::SmoothAdd => 4u32,
                TextureOp::SignedAdd => 5u32,
            },
    {
        match self {
            TextureOp::Multiply => 0,
            TextureOp::Add => 1,
            TextureOp::Subtract => 2,
            TextureOp::Divide => 3,
            TextureOp::SmoothAdd => 4,
            TextureOp::SignedAdd => 5,
        }
    }
}

/// How texture coordinates outside `[0, 1]` are handled (the wrapping mode).
#[derive(Clone, Copy, PartialEq, Eq, Debug, Structural)]
pub enum TextureMapMode {
    /// `(u, v)` becomes `(u % 1, v % 1)`.
    Wrap,
    /// Coordinates are clamped to the nearest valid value.
    Clamp,
    /// Outside `[0, 1]` the texture is not applied.
    Decal,
    /// Coordinates are mirrored at every whole number.
    Mirror,
}

impl TextureMapMode {
    /// The numeric code of this value in the importer's interface.
    pub fn code(self) -> (r: u32)
        ensures
            r == match self {
                TextureMapMode::Wrap => 0u32,
                TextureMapMode::Clamp => 1u32,
                TextureMapMode::Decal => 3u32,
                TextureMapMode::Mirror => 2u32,
            },
    {
        match self {
            TextureMapMode::Wrap => 0,
            TextureMapMode::Clamp => 1,
            TextureMapMode::Decal => 3,
            TextureMapMode::Mirror => 2,
        }
    }
}

/// How the mapping coordinates of a texture are generated.
#[derive(Clone, Copy, PartialEq, Eq, Debug, Structural)]
pub enum TextureMapping {
    /// Taken from a UV channel.
    Uv,
    /// Spherical mapping.
    Sphere,
    /// Cylindrical mapping.
    Cylinder,
    /// Cubic mapping.
    Cubic,
    /// Planar mapping.
    Plane,
    /// Some other mapping.
    Other,
}

impl TextureMapping {
    /// The numeric code of this value in the importer's interface.
    pub fn code(self) -> (r: u32)
        ensures
            r == match self {
                TextureMapping::Uv => 0u32,
                TextureMapping::Sphere => 1u32,
                TextureMapping::Cylinder => 2u32,
                TextureMapping::Cubic => 3u32,
                TextureMapping::Plane => 4u32,
                TextureMapping::Other => 5u32,
            },
    {
        match self {
            TextureMapping::Uv => 0,
            TextureMapping::Sphere => 1,
            TextureMapping::Cylinder => 2,
            TextureMapping::Cubic => 3,
            TextureMapping::Plane => 4,
            TextureMapping::Other => 5,
        }
    }
}

/// The purpose of a texture.
#[derive(Clone, Copy, PartialEq, Eq, Debug, Structural)]
pub enum TextureType {
    /// No texture: the semantic of material properties that are not about textures.
    NoTexture,
    /// Combined with the result of the diffuse lighting equation.
    Diffuse,
    /// Combined with the result of the specular lighting equation.
    Specular,
    /// Combined with the result of the ambient lighting equation.
    Ambient,
    /// Added to the result of the lighting, whatever the incoming light.
    Emissive,
    /// A height map: brighter is higher.
    Height,
    /// A (tangent space) normal map.
    Normals,
    /// The glossiness: the exponent of the specular lighting equation.
    Shininess,
    /// Per-pixel opacity.
    Opacity,
    /// Vertex displacement, as the application defines it.
    Displacement,
    /// A light map or ambient occlusion map.
    Lightmap,
    /// The colour of a perfect mirror reflection.
    Reflection,
    /// A texture that matches none of the other purposes.
    Unknown,
}

impl TextureType {
    /// The numeric code of this value in the importer's interface.
    pub fn code(self) -> (r: u32)
        ensures
            r == match self {
                TextureType::NoTexture => 0u32,
                TextureType::Diffuse => 1u32,
                TextureType::Specular => 2u32,
                TextureType::Ambient => 3u32,
                TextureType::Emissive => 4u32,
                TextureType::Height => 5u32,
                TextureType::Normals => 6u32,
                TextureType::Shininess => 7u32,
                TextureType::Opacity => 8u32,
                TextureType::Displacement => 9u32,
                TextureType::Lightmap => 10u32,
                TextureType::Reflection => 11u32,
                TextureType::Unknown => 12u32,
            },
    {
        match self {
            TextureType::NoTexture => 0,
            TextureType::Diffuse => 1,
            TextureType::Specular => 2,
            TextureType::Ambient => 3,
            TextureType::Emissive => 4,
            TextureType::Height => 5,
            TextureType::Normals => 6,
            TextureType::Shininess => 7,
            TextureType::Opacity => 8,
            TextureType::Displacement => 9,
            TextureType::Lightmap => 10,
            TextureType::Reflection => 11,
            TextureType::Unknown => 12,
        }
    }
}

/// The largest code of a texture type.
pub const AI_TEXTURE_TYPE_MAX: u32 = 12;

/// The shading model that a material asks for (a hint only).
#[derive(Clone, Copy, PartialEq, Eq, Debug, Structural)]
pub enum ShadingMode {
    /// Per-face shading, diffuse only.
    Flat,
    /// Gouraud shading.
    Gouraud,
    /// Phong shading.
    Phong,
    /// Phong-Blinn shading.
    Blinn,
    /// Toon (comic) shading per pixel.
    Toon,
    /// Oren-Nayar shading per pixel, which accounts for roughness.
    OrenNayar,
    /// Minnaert shading per pixel, which accounts for darkness.
    Minnaert,
    /// Cook-Torrance shading per pixel, for metallic surfaces.
    CookTorrance,
    /// No shading: a constant light influence of one.
    NoShading,
    /// Fresnel shading.
    Fresnel,
}

impl ShadingMode {
    /// The numeric code of this value in the importer's interface.
    pub fn code(self) -> (r: u32)
        ensures
            r == match self {
                ShadingMode::Flat => 1u32,
                ShadingMode::Gouraud => 2u32,
                ShadingMode::Phong => 3u32,
                ShadingMode::Blinn => 4u32,
                ShadingMode::Toon => 5u32,
                ShadingMode::OrenNayar => 6u32,
                ShadingMode::Minnaert => 7u32,
                ShadingMode::CookTorrance => 8u32,
                ShadingMode::NoShading => 9u32,
                ShadingMode::Fresnel => 10u32,
            },
    {
        match self {
            ShadingMode::Flat => 1,
            ShadingMode::Gouraud => 2,
            ShadingMode::Phong => 3,
            ShadingMode::Blinn => 4,
            ShadingMode::Toon => 5,
            ShadingMode::OrenNayar => 6,
            ShadingMode::Minnaert => 7,
            ShadingMode::CookTorrance => 8,
            ShadingMode::NoShading => 9,
            ShadingMode::Fresnel => 10,
        }
    }
}

/// Mixed flags of a texture.
#[derive(Clone, Copy, PartialEq, Eq, Debug, Structural)]
pub enum TextureFlags {
    /// The colour values are inverted (each component `1 - n`).
    Invert,
    /// The alpha channel is to be used.
    UseAlpha,
    /// The alpha channel is to be ignored.
    IgnoreAlpha,
}

impl TextureFlags {
    /// The flag bit of this value in the importer's interface.
    pub fn code(self) -> (r: u32)
        ensures
            r == match self {
                TextureFlags::Invert => 1u32,
                TextureFlags::UseAlpha => 2u32,
                TextureFlags::IgnoreAlpha => 4u32,
            },
    {
        match self {
            TextureFlags::Invert => 1,
            TextureFlags::UseAlpha => 2,
            TextureFlags::IgnoreAlpha => 4,
        }
    }
}

/// How a material's colour is blended with what is already drawn.
#[derive(Clone, Copy, PartialEq, Eq, Debug, Structural)]
pub enum BlendMode {
    /// `SourceColor * SourceAlpha + DestColor * (1 - SourceAlpha)`
    Default,
    /// `SourceColor + DestColor`
    Additive,
}

impl BlendMode {
    /// The numeric code of this value in the importer's interface.
    pub fn code(self) -> (r: u32)
        ensures
            r == match self {
                BlendMode::Default => 0u32,
                BlendMode::Additive => 1u32,
            },
    {
        match self {
            BlendMode::Default => 0,
            BlendMode::Additive => 1,
        }
    }
}

/// The type of the data that a material property holds.
#[derive(Clone, Copy, PartialEq, Eq, Debug, Structural)]
pub enum PropertyTypeInfo {
    /// An array of `f32`.
    PtiFloat,
    /// A string.
    PtiString,
    /// An array of `i32`.
    PtiInteger,
    /// Raw bytes.
    PtiBuffer,
}

impl PropertyTypeInfo {
    /// The numeric code of this value in the importer's interface.
    pub fn code(self) -> (r: u32)
        ensures
            r == match self {
                PropertyTypeInfo::PtiFloat => 1u32,
                PropertyTypeInfo::PtiString => 3u32,
                PropertyTypeInfo::PtiInteger => 4u32,
                PropertyTypeInfo::PtiBuffer => 5u32,
            },
    {
        match self {
            PropertyTypeInfo::PtiFloat => 1,
            PropertyTypeInfo::PtiString => 3,
            PropertyTypeInfo::PtiInteger => 4,
            PropertyTypeInfo::PtiBuffer => 5,
        }
    }
}

/// One entry of a material's property table; its data is never empty.
pub struct MaterialProperty {
    key: String,
    semantic: u32,
    index: u32,
    type_info: PropertyTypeInfo,
    data: Vec<u8>,
}

impl MaterialProperty {
    #[verifier::type_invariant]
    spec fn has_data(self) -> bool {
        self.data@.len() > 0
    }

    pub closed spec fn key_view(&self) -> Seq<char> {
        self.key@
    }

    pub closed spec fn semantic_view(&self) -> u32 {
        self.semantic
    }

    pub closed spec fn index_view(&self) -> u32 {
        self.index
    }

    pub closed spec fn type_view(&self) -> PropertyTypeInfo {
        self.type_info
    }

    pub closed spec fn data_view(&self) -> Seq<u8> {
        self.data@
    }

    /// The property `key`; for texture properties `semantic` is the texture
    /// type's code and `index` the texture's index (both 0 otherwise).
    /// `None` where `data` is empty.
    pub fn new(key: String, semantic: u32, index: u32, type_info: PropertyTypeInfo, data: Vec<u8>) -> (r:
        Option<MaterialProperty>)
        ensures
            r is Some <==> data@.len() > 0,
            r matches Some(p) ==> p.key_view() == key@ && p.semantic_view() == semantic
                && p.index_view() == index && p.type_view() == type_info && p.data_view() == data@,
    {
        if data.len() == 0 {
            None
        } else {
            Some(MaterialProperty { key, semantic, index, type_info, data })
        }
    }

    /// The name of the property.
    pub fn key(&self) -> (r: &String)
        ensures
            r@ == self.key_view(),
    {
        &self.key
    }

    /// For texture properties, the texture type's code; 0 otherwise.
    pub fn semantic(&self) -> (r: u32)
        ensures
            r == self.semantic_view(),
    {
        self.semantic
    }

    /// For texture properties, the index of the texture; 0 otherwise.
    pub fn index(&self) -> (r: u32)
        ensures
            r == self.index_view(),
    {
        self.index
    }

    /// The type of the data.
    pub fn type_info(&self) -> (r: PropertyTypeInfo)
        ensures
            r == self.type_view(),
    {
        self.type_info
    }

    /// The stored value; never empty.
    pub fn get_data(&self) -> (r: &[u8])
        ensures
            r@ == self.data_view(),
            r@.len() > 0,
    {
        proof {
            use_type_invariant(self);
        }
        self.data.as_slice()
    }
}

/// A material: a table of properties.
pub struct Material {
    /// The properties, in the order the importer gave them.
    pub properties: Vec<MaterialProperty>,
}

impl Material {
    /// The property table.
    pub fn get_properties(&self) -> (r: &[MaterialProperty])
        ensures
            r@ == self.properties@,
    {
        self.properties.as_slice()
    }
}

} // verus!
