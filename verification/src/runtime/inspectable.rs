//! Property reflection: the editor lists the tunable parameters of an object
//! and writes edited values back by identifier.
use vstd::prelude::*;
use vstd::string::*;
use crate::float_bits::{F32_ZERO, F32_ONE, f32_clamp, f32_max_with, clamp_unit, max_with_bits};
use crate::scene::node::MaterialUniform;

verus! {

/// Bit pattern of `0.01_f32`, the slider step of unit parameters.
pub const F32_UNIT_STEP: u32 = 0x3c23_d70a;

/// Bit pattern of `3.0_f32`, the upper bound of the IOR slider.
pub const F32_IOR_MAX: u32 = 0x4040_0000;

/// Bit pattern of `0.02_f32`, the slider step of the IOR.
pub const F32_IOR_STEP: u32 = 0x3ca3_d70a;

/// How the editor presents a property; scalars are `f32` bit patterns.
#[derive(Clone, Debug, PartialEq)]
pub enum PropertyKind {
    Float { min: u32, max: u32, step: u32 },
    ColorRgba,
    Vec2,
    Vec3 { min: u32, max: u32 },
    Bool,
    Choice { options: Vec<String> },
}

/// A property value; scalars are `f32` bit patterns.
#[derive(Clone, Debug, PartialEq)]
pub enum PropertyValue {
    Float(u32),
    ColorRgba([u32; 4]),
    Vec2([u32; 2]),
    Vec3([u32; 3]),
    Bool(bool),
    Choice(String),
}

/// One editable property: identifier, display name, palette category,
/// widget kind and current value.
#[derive(Clone, Debug, PartialEq)]
pub struct PropertyDesc {
    pub id: String,
    pub name: String,
    pub category: String,
    pub kind: PropertyKind,
    pub value: PropertyValue,
}

/// An object whose parameters the editor can list and set by identifier.
pub trait Inspectable {
    fn inspect_properties(&self) -> Vec<PropertyDesc>;

    fn set_property(&mut self, id: &str, value: PropertyValue) -> Result<(), String>;
}

/// Identifiers of the material properties, in listing order.
pub open spec fn material_property_ids() -> Seq<Seq<char>> {
    seq![
        "roughness"@,
        "metallic"@,
        "ior"@,
        "transmission"@,
        "clearcoat"@,
        "clearcoat_roughness"@,
        "subsurface"@,
        "emission_color"@,
    ]
}

/// Display names of the material properties, in listing order.
pub open spec fn material_property_names() -> Seq<Seq<char>> {
    seq![
        "Rugosité (Roughness)"@,
        "Métallique (Metallic)"@,
        "Indice Réfraction (IOR)"@,
        "Transparence (Transmission)"@,
        "Vernis (Clearcoat)"@,
        "Rugosité Vernis"@,
        "Diffusion Sous-Surfacique (SSS)"@,
        "Couleur Émission HDR"@,
    ]
}

/// Palette categories of the material properties, in listing order.
pub open spec fn material_property_categories() -> Seq<Seq<char>> {
    seq![
        "PBR Surface"@,
        "PBR Surface"@,
        "Optique & Verre"@,
        "Optique & Verre"@,
        "Vernis & Finition"@,
        "Vernis & Finition"@,
        "Matériaux Avancés"@,
        "Émission"@,
    ]
}

/// Widget kind of the `i`-th material property.
pub open spec fn material_property_kind(i: int) -> PropertyKind {
    if i == 2 {
        PropertyKind::Float { min: F32_ONE, max: F32_IOR_MAX, step: F32_IOR_STEP }
    } else if i == 7 {
        PropertyKind::ColorRgba
    } else {
        PropertyKind::Float { min: F32_ZERO, max: F32_ONE, step: F32_UNIT_STEP }
    }
}

/// Current value of the `i`-th material property.
pub open spec fn material_property_value(m: MaterialUniform, i: int) -> PropertyValue {
    if i == 0 {
        PropertyValue::Float(m.roughness)
    } else if i == 1 {
        PropertyValue::Float(m.metallic)
    } else if i == 2 {
        PropertyValue::Float(m.ior)
    } else if i == 3 {
        PropertyValue::Float(m.transmission)
    } else if i == 4 {
        PropertyValue::Float(m.clearcoat)
    } else if i == 5 {
        PropertyValue::Float(m.clearcoat_roughness)
    } else if i == 6 {
        PropertyValue::Float(m.subsurface)
    } else {
        PropertyValue::ColorRgba(m.emission_color)
    }
}

/// The material after writing `v` to property `id`, or `None` where `id` is
/// unknown or `v` has the wrong shape for it. Unit parameters are clamped to
/// `[0, 1]`, the IOR is raised to at least `1.0`, the emission colour is
/// stored as given.
pub open spec fn material_with_property(m: MaterialUniform, id: Seq<char>, v: PropertyValue) -> Option<
    MaterialUniform,
> {
    if id == "roughness"@ {
        match v {
            PropertyValue::Float(x) => Some(MaterialUniform { roughness: f32_clamp(x, F32_ZERO, F32_ONE), ..m }),
            _ => None,
        }
    } else if id == "metallic"@ {
        match v {
            PropertyValue::Float(x) => Some(MaterialUniform { metallic: f32_clamp(x, F32_ZERO, F32_ONE), ..m }),
            _ => None,
        }
    } else if id == "ior"@ {
        match v {
            PropertyValue::Float(x) => Some(MaterialUniform { ior: f32_max_with(x, F32_ONE), ..m }),
            _ => None,
        }
    } else if id == "transmission"@ {
        match v {
            PropertyValue::Float(x) => Some(MaterialUniform { transmission: f32_clamp(x, F32_ZERO, F32_ONE), ..m }),
            _ => None,
        }
    } else if id == "clearcoat"@ {
        match v {
            PropertyValue::Float(x) => Some(MaterialUniform { clearcoat: f32_clamp(x, F32_ZERO, F32_ONE), ..m }),
            _ => None,
        }
    } else if id == "clearcoat_roughness"@ {
        match v {
            PropertyValue::Float(x) => Some(MaterialUniform { clearcoat_roughness: f32_clamp(x, F32_ZERO, F32_ONE), ..m }),
            _ => None,
        }
    } else if id == "subsurface"@ {
        match v {
            PropertyValue::Float(x) => Some(MaterialUniform { subsurface: f32_clamp(x, F32_ZERO, F32_ONE), ..m }),
            _ => None,
        }
    } else if id == "emission_color"@ {
        match v {
            PropertyValue::ColorRgba(c) => Some(MaterialUniform { emission_color: c, ..m }),
            _ => None,
        }
    } else {
        None
    }
}

/// The message of a refused write to a material.
pub open spec fn material_property_error(id: Seq<char>) -> Seq<char> {
    "Propriété inconnue ou type incompatible: "@ + id
}

/// Whether `v` has the shape that property `i` takes.
pub open spec fn material_value_fits(i: int, v: PropertyValue) -> bool {
    if i == 7 {
        v is ColorRgba
    } else {
        v is Float
    }
}

/// What property `i` reads after `v` was written to it.
pub open spec fn material_value_stored(i: int, v: PropertyValue) -> PropertyValue {
    match v {
        PropertyValue::Float(x) => if i == 2 {
            PropertyValue::Float(f32_max_with(x, F32_ONE))
        } else {
            PropertyValue::Float(f32_clamp(x, F32_ZERO, F32_ONE))
        },
        _ => v,
    }
}

/// String equality on the characters of two string slices.
pub fn str_eq(a: &str, b: &str) -> (r: bool)
    ensures
        r == (a@ == b@),
{
    let sa = String::from_str(a);
    let sb = String::from_str(b);
    sa == sb
}

fn float_property(id: &str, name: &str, category: &str, min: u32, max: u32, step: u32, value: u32) -> (r:
    PropertyDesc)
    ensures
        r.id@ == id@,
        r.name@ == name@,
        r.category@ == category@,
        r.kind == (PropertyKind::Float { min, max, step }),
        r.value == PropertyValue::Float(value),
{
    PropertyDesc {
        id: String::from_str(id),
        name: String::from_str(name),
        category: String::from_str(category),
        kind: PropertyKind::Float { min, max, step },
        value: PropertyValue::Float(value),
    }
}

impl Inspectable for MaterialUniform {
    /// The eight surface parameters, in a fixed order.
    fn inspect_properties(&self) -> (r: Vec<PropertyDesc>)
        ensures
            r.len() == 8,
            forall|i: int|
                0 <= i < 8 ==> {
                    &&& (#[trigger] r@[i]).id@ == material_property_ids()[i]
                    &&& r@[i].name@ == material_property_names()[i]
                    &&& r@[i].category@ == material_property_categories()[i]
                    &&& r@[i].kind == material_property_kind(i)
                    &&& r@[i].value == material_property_value(*self, i)
                },
    {
        let mut props: Vec<PropertyDesc> = Vec::new();
        props.push(
            float_property(
                "roughness",
                "Rugosité (Roughness)",
                "PBR Surface",
                F32_ZERO,
                F32_ONE,
                F32_UNIT_STEP,
                self.roughness,
            ),
        );
        props.push(
            float_property(
                "metallic",
                "Métallique (Metallic)",
                "PBR Surface",
                F32_ZERO,
                F32_ONE,
                F32_UNIT_STEP,
                self.metallic,
            ),
        );
        props.push(
            float_property(
                "ior",
                "Indice Réfraction (IOR)",
                "Optique & Verre",
                F32_ONE,
                F32_IOR_MAX,
                F32_IOR_STEP,
                self.ior,
            ),
        );
        props.push(
            float_property(
                "transmission",
                "Transparence (Transmission)",
                "Optique & Verre",
                F32_ZERO,
                F32_ONE,
                F32_UNIT_STEP,
                self.transmission,
            ),
        );
        props.push(
            float_property(
                "clearcoat",
                "Vernis (Clearcoat)",
                "Vernis & Finition",
                F32_ZERO,
                F32_ONE,
                F32_UNIT_STEP,
                self.clearcoat,
            ),
        );
        props.push(
            float_property(
                "clearcoat_roughness",
                "Rugosité Vernis",
                "Vernis & Finition",
                F32_ZERO,
                F32_ONE,
                F32_UNIT_STEP,
                self.clearcoat_roughness,
            ),
        );
        props.push(
            float_property(
                "subsurface",
                "Diffusion Sous-Surfacique (SSS)",
                "Matériaux Avancés",
                F32_ZERO,
                F32_ONE,
                F32_UNIT_STEP,
                self.subsurface,
            ),
        );
        props.push(
            PropertyDesc {
                id: String::from_str("emission_color"),
                name: String::from_str("Couleur Émission HDR"),
                category: String::from_str("Émission"),
                kind: PropertyKind::ColorRgba,
                value: PropertyValue::ColorRgba(self.emission_color),
            },
        );
        props
    }

    /// Writes `value` to property `id`; refuses an unknown identifier or a
    /// value of the wrong shape, leaving the material unchanged.
    fn set_property(&mut self, id: &str, value: PropertyValue) -> (r: Result<(), String>)
        ensures
            match material_with_property(*old(self), id@, value) {
                Some(m) => r is Ok && *final(self) == m,
                None => r is Err && *final(self) == *old(self) && r->Err_0@ == material_property_error(
                    id@,
                ),
            },
    {
        let ghost m0 = *self;
        let mut done = false;
        if str_eq(id, "roughness") {
            if let PropertyValue::Float(v) = value {
                self.roughness = clamp_unit(v);
                done = true;
            }
        } else if str_eq(id, "metallic") {
            if let PropertyValue::Float(v) = value {
                self.metallic = clamp_unit(v);
                done = true;
            }
        } else if str_eq(id, "ior") {
            if let PropertyValue::Float(v) = value {
                self.ior = max_with_bits(v, F32_ONE);
                done = true;
            }
        } else if str_eq(id, "transmission") {
            if let PropertyValue::Float(v) = value {
                self.transmission = clamp_unit(v);
                done = true;
            }
        } else if str_eq(id, "clearcoat") {
            if let PropertyValue::Float(v) = value {
                self.clearcoat = clamp_unit(v);
                done = true;
            }
        } else if str_eq(id, "clearcoat_roughness") {
            if let PropertyValue::Float(v) = value {
                self.clearcoat_roughness = clamp_unit(v);
                done = true;
            }
        } else if str_eq(id, "subsurface") {
            if let PropertyValue::Float(v) = value {
                self.subsurface = clamp_unit(v);
                done = true;
            }
        } else if str_eq(id, "emission_color") {
            if let PropertyValue::ColorRgba(c) = value {
                self.emission_color = c;
                done = true;
            }
        }
        if done {
            Ok(())
        } else {
            let mut msg = String::from_str("Propriété inconnue ou type incompatible: ");
            msg.append(id);
            Err(msg)
        }
    }
}

/// Writing a value of the right shape to a listed property succeeds, the
/// listing then shows the stored (normalised) value for that property, and
/// every other listed property keeps its value.
pub proof fn lemma_material_read_after_write(m: MaterialUniform, i: int, v: PropertyValue)
    requires
        0 <= i < 8,
        material_value_fits(i, v),
    ensures
        material_with_property(m, material_property_ids()[i], v) is Some,
        material_property_value(material_with_property(m, material_property_ids()[i], v)->0, i)
            == material_value_stored(i, v),
        forall|j: int|
            0 <= j < 8 && j != i ==> material_property_value(
                material_with_property(m, material_property_ids()[i], v)->0,
                j,
            ) == material_property_value(m, j),
{
    reveal_strlit("roughness");
    reveal_strlit("metallic");
    reveal_strlit("ior");
    reveal_strlit("transmission");
    reveal_strlit("clearcoat");
    reveal_strlit("clearcoat_roughness");
    reveal_strlit("subsurface");
    reveal_strlit("emission_color");
    let ids = material_property_ids();
    assert forall|a: int, b: int| 0 <= a < b < 8 implies ids[a] != ids[b] by {
        assert(ids[a].len() != ids[b].len() || ids[a][0] != ids[b][0] || ids[a][1] != ids[b][1]);
    }
    if i == 0 {
        assert(ids[0] == "roughness"@);
        let x = v->Float_0;
        let m2 = MaterialUniform { roughness: f32_clamp(x, F32_ZERO, F32_ONE), ..m };
        assert(material_with_property(m, ids[0], v) == Some(m2));
        assert(material_property_value(m2, 0) == material_value_stored(0, v));
    } else if i == 1 {
        assert(ids[1] == "metallic"@);
        let x = v->Float_0;
        let m2 = MaterialUniform { metallic: f32_clamp(x, F32_ZERO, F32_ONE), ..m };
        assert(material_with_property(m, ids[1], v) == Some(m2));
        assert(material_property_value(m2, 1) == material_value_stored(1, v));
    } else if i == 2 {
        assert(ids[2] == "ior"@);
        let x = v->Float_0;
        let m2 = MaterialUniform { ior: f32_max_with(x, F32_ONE), ..m };
        assert(material_with_property(m, ids[2], v) == Some(m2));
        assert(material_property_value(m2, 2) == material_value_stored(2, v));
    } else if i == 3 {
        assert(ids[3] == "transmission"@);
        let x = v->Float_0;
        let m2 = MaterialUniform { transmission: f32_clamp(x, F32_ZERO, F32_ONE), ..m };
        assert(material_with_property(m, ids[3], v) == Some(m2));
        assert(material_property_value(m2, 3) == material_value_stored(3, v));
    } else if i == 4 {
        assert(ids[4] == "clearcoat"@);
        let x = v->Float_0;
        let m2 = MaterialUniform { clearcoat: f32_clamp(x, F32_ZERO, F32_ONE), ..m };
        assert(material_with_property(m, ids[4], v) == Some(m2));
        assert(material_property_value(m2, 4) == material_value_stored(4, v));
    } else if i == 5 {
        assert(ids[5] == "clearcoat_roughness"@);
        let x = v->Float_0;
        let m2 = MaterialUniform { clearcoat_roughness: f32_clamp(x, F32_ZERO, F32_ONE), ..m };
        assert(material_with_property(m, ids[5], v) == Some(m2));
        assert(material_property_value(m2, 5) == material_value_stored(5, v));
    } else if i == 6 {
        assert(ids[6] == "subsurface"@);
        let x = v->Float_0;
        let m2 = MaterialUniform { subsurface: f32_clamp(x, F32_ZERO, F32_ONE), ..m };
        assert(material_with_property(m, ids[6], v) == Some(m2));
        assert(material_property_value(m2, 6) == material_value_stored(6, v));
    } else {
        assert(ids[7] == "emission_color"@);
        let c = v->ColorRgba_0;
        let m2 = MaterialUniform { emission_color: c, ..m };
        assert(material_with_property(m, ids[7], v) == Some(m2));
        assert(material_property_value(m2, 7) == material_value_stored(7, v));
    }
}

/// An identifier that is not listed is always refused.
pub proof fn lemma_material_unknown_refused(m: MaterialUniform, id: Seq<char>, v: PropertyValue)
    requires
        !material_property_ids().contains(id),
    ensures
        material_with_property(m, id, v) is None,
{
    assert(material_property_ids()[0] == "roughness"@);
    assert(material_property_ids()[1] == "metallic"@);
    assert(material_property_ids()[2] == "ior"@);
    assert(material_property_ids()[3] == "transmission"@);
    assert(material_property_ids()[4] == "clearcoat"@);
    assert(material_property_ids()[5] == "clearcoat_roughness"@);
    assert(material_property_ids()[6] == "subsurface"@);
    assert(material_property_ids()[7] == "emission_color"@);
}

} // verus!
