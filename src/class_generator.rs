//! TypeScript class generation helpers.

use vstd::prelude::*;
use crate::backend::{ts_type_of, TypeScriptBackend};
use crate::casing::{capitalize, capitalized};
use crate::error::Error;
use crate::ir::{CardinalityRange, DataType, Property, ResourceType};
use crate::text::str_eq;

verus! {

/// The FHIR primitive type names that classes store as plain values.
pub open spec fn is_class_primitive(t: Seq<char>) -> bool {
    t == "boolean"@ || t == "integer"@ || t == "string"@ || t == "decimal"@ || t == "uri"@ || t
        == "url"@ || t == "canonical"@ || t == "base64Binary"@ || t == "instant"@ || t == "date"@
        || t == "dateTime"@ || t == "time"@ || t == "code"@ || t == "oid"@ || t == "id"@ || t
        == "markdown"@ || t == "unsignedInt"@ || t == "positiveInt"@ || t == "uuid"@
}

/// `s` with every trailing `[]` removed.
pub open spec fn trim_array_suffix(s: Seq<char>) -> Seq<char>
    decreases s.len(),
{
    if s.len() >= 2 && s[s.len() - 2] == '[' && s[s.len() - 1] == ']' {
        trim_array_suffix(s.subrange(0, s.len() - 2))
    } else {
        s
    }
}

/// The private field of a property.
pub open spec fn private_field_text(p: Property) -> Seq<char> {
    "  private _"@ + p.name@ + (if p.cardinality.min == 0 {
        "?"@
    } else {
        Seq::empty()
    }) + ": "@ + ts_type_of(p.property_type) + ";\n"@
}

/// The getter of a property.
pub open spec fn getter_text(p: Property) -> Seq<char> {
    "  get "@ + p.name@ + "(): "@ + ts_type_of(p.property_type) + (if p.cardinality.min == 0 {
        " | undefined"@
    } else {
        Seq::empty()
    }) + " {\n    return this._"@ + p.name@ + ";\n  }\n"@
}

/// The setter of a property.
pub open spec fn setter_text(p: Property) -> Seq<char> {
    "  set"@ + capitalized(p.name@) + "(value: "@ + ts_type_of(p.property_type)
        + "): this {\n    this._"@ + p.name@ + " = value;\n    return this;\n  }\n"@
}

/// The add method of an array property.
pub open spec fn add_method_text(p: Property) -> Seq<char> {
    "  add"@ + capitalized(p.name@) + "(value: "@ + trim_array_suffix(ts_type_of(p.property_type))
        + "): this {\n    if (!this._"@ + p.name@ + ") {\n      this._"@ + p.name@
        + " = [];\n    }\n    this._"@ + p.name@ + ".push(value);\n    return this;\n  }\n"@
}

/// The has method of a property.
pub open spec fn has_method_text(p: Property) -> Seq<char> {
    "  has"@ + capitalized(p.name@) + "(): boolean {\n    return this._"@ + p.name@
        + " !== undefined && this._"@ + p.name@ + " !== null;\n  }\n"@
}

/// The constructor of a resource class.
pub open spec fn constructor_text(r: ResourceType) -> Seq<char> {
    "  constructor() {\n"@ + (if r.base is Some {
        "    super();\n"@
    } else {
        Seq::empty()
    }) + "    this.resourceType = \""@ + r.name@ + "\";\n  }\n"@
}

/// The statement of toJSON that copies one property.
pub open spec fn to_json_line(p: Property) -> Seq<char> {
    "    if (this._"@ + p.name@ + " !== undefined) {\n      obj."@ + p.name@ + " = this._"@ + p.name@
        + ";\n    }\n"@
}

/// The statement of parse that sets one property.
pub open spec fn parse_line(p: Property) -> Seq<char> {
    "    if (json."@ + p.name@ + " !== undefined) {\n      instance.set"@ + capitalized(p.name@)
        + "(json."@ + p.name@ + ");\n    }\n"@
}

/// Which text of a property a listing holds.
#[derive(Clone, Copy)]
pub enum Part {
    Field,
    Accessors,
    Builders,
    ToJson,
    Parse,
}

/// The text of one property for listing `part`.
pub open spec fn part_text(p: Property, part: Part) -> Seq<char> {
    match part {
        Part::Field => private_field_text(p),
        Part::Accessors => getter_text(p) + "\n"@ + setter_text(p) + "\n"@,
        Part::Builders => (if p.cardinality.spec_is_array() {
            add_method_text(p) + "\n"@
        } else {
            Seq::empty()
        }) + has_method_text(p) + "\n"@,
        Part::ToJson => to_json_line(p),
        Part::Parse => parse_line(p),
    }
}

/// The texts of all properties for listing `part`, in order.
pub open spec fn listing(ps: Seq<Property>, part: Part) -> Seq<char>
    decreases ps.len(),
{
    if ps.len() == 0 {
        Seq::empty()
    } else {
        listing(ps.drop_last(), part) + part_text(ps.last(), part)
    }
}

/// The toJSON method of a resource class.
pub open spec fn to_json_text(ps: Seq<Property>) -> Seq<char> {
    "  toJSON(): any {\n    const obj: any = {\n      resourceType: this.resourceType\n    };\n"@
        + listing(ps, Part::ToJson) + "    return obj;\n  }\n"@
}

/// The toJSON method of a datatype class.
pub open spec fn datatype_to_json_text(ps: Seq<Property>) -> Seq<char> {
    "  toJSON(): any {\n    const obj: any = {};\n"@ + listing(ps, Part::ToJson)
        + "    return obj;\n  }\n"@
}

/// The static parse method of class `name`.
pub open spec fn parse_method_text(name: Seq<char>, ps: Seq<Property>) -> Seq<char> {
    "  static parse(json: any): "@ + name + " {\n    const instance = new "@ + name + "();\n"@
        + listing(ps, Part::Parse) + "    return instance;\n  }\n"@
}

/// The documentation and declaration line of a class.
pub open spec fn class_head(name: Seq<char>, base: Option<String>, short: Seq<char>) -> Seq<char> {
    (if short.len() > 0 {
        "/**\n * "@ + short + "\n */"@ + "\n"@
    } else {
        Seq::empty()
    }) + "export class "@ + name + (match base {
        Some(b) => " extends "@ + b@,
        None => Seq::empty(),
    }) + " {\n"@
}

/// The class of a resource.
pub open spec fn resource_class_text(r: ResourceType) -> Seq<char> {
    class_head(r.name@, r.base, r.documentation.short@) + "  resourceType: string;\n\n"@
        + listing(r.properties@, Part::Field) + "\n"@ + constructor_text(r) + "\n"@
        + listing(r.properties@, Part::Accessors) + listing(r.properties@, Part::Builders)
        + to_json_text(r.properties@) + "\n"@ + parse_method_text(r.name@, r.properties@) + "}\n"@
}

/// The class of a datatype.
pub open spec fn datatype_class_text(d: DataType) -> Seq<char> {
    class_head(d.name@, d.base, d.documentation.short@) + listing(d.properties@, Part::Field) + "\n"@
        + "  constructor() {\n"@ + (if d.base is Some {
        "    super();\n"@
    } else {
        Seq::empty()
    }) + "  }\n\n"@ + listing(d.properties@, Part::Accessors) + listing(d.properties@, Part::Builders)
        + datatype_to_json_text(d.properties@) + "\n"@ + parse_method_text(d.name@, d.properties@)
        + "}\n"@
}

/// Generator of TypeScript classes.
pub struct ClassGenerator;

impl ClassGenerator {
    /// A one-line JSDoc comment.
    pub fn generate_jsdoc(text: &str) -> (r: String)
        ensures
            r@ == "/**\n * "@ + text@ + "\n */"@,
    {
        let mut r = "/**\n * ".to_owned();
        r.append(text);
        r.append("\n */");
        r
    }

    /// Does the property hold an array?
    pub fn is_array_property(prop: &Property) -> (r: bool)
        ensures
            r == prop.cardinality.spec_is_array(),
    {
        match prop.cardinality.max {
            None => true,
            Some(m) => m > 1,
        }
    }

    /// Is a value of this cardinality optional?
    pub fn is_optional(cardinality: &CardinalityRange) -> (r: bool)
        ensures
            r == (cardinality.min == 0),
    {
        cardinality.min == 0
    }

    /// Capitalizes the first letter of `s`.
    pub fn capitalize(s: &str) -> (r: String)
        ensures
            r@ == capitalized(s@),
    {
        capitalize(s)
    }

    /// Is `name` a FHIR primitive type name?
    pub fn is_primitive_type(name: &str) -> (r: bool)
        ensures
            r == is_class_primitive(name@),
    {
        let t = name;
        str_eq(t, "boolean") || str_eq(t, "integer") || str_eq(t, "string") || str_eq(t, "decimal")
            || str_eq(t, "uri") || str_eq(t, "url") || str_eq(t, "canonical") || str_eq(
            t,
            "base64Binary",
        ) || str_eq(t, "instant") || str_eq(t, "date") || str_eq(t, "dateTime") || str_eq(t, "time")
            || str_eq(t, "code") || str_eq(t, "oid") || str_eq(t, "id") || str_eq(t, "markdown")
            || str_eq(t, "unsignedInt") || str_eq(t, "positiveInt") || str_eq(t, "uuid")
    }

    /// `s` with every trailing `[]` removed.
    fn trim_array_suffix(s: &str) -> (r: String)
        ensures
            r@ == trim_array_suffix(s@),
    {
        let n = s.unicode_len();
        let mut end: usize = n;
        assert(s@.subrange(0, n as int) =~= s@);
        while end >= 2 && s.get_char(end - 2) == '[' && s.get_char(end - 1) == ']'
            invariant
                n == s@.len(),
                end <= n,
                trim_array_suffix(s@) == trim_array_suffix(s@.subrange(0, end as int)),
            decreases end,
        {
            let ghost t = s@.subrange(0, end as int);
            assert(t.subrange(0, t.len() - 2) =~= s@.subrange(0, end - 2));
            end = end - 2;
        }
        s.substring_char(0, end).to_owned()
    }

    /// The private field of a property.
    pub fn generate_private_field(prop: &Property, backend: &TypeScriptBackend) -> (r: Result<String, Error>)
        ensures
            r is Ok && r->Ok_0@ == private_field_text(*prop),
    {
        let ts_type = backend.map_type(&prop.property_type);
        let mut t = "  private _".to_owned();
        t.append(prop.name.as_str());
        if Self::is_optional(&prop.cardinality) {
            t.append("?");
        }
        t.append(": ");
        t.append(ts_type.as_str());
        t.append(";\n");
        Ok(t)
    }

    /// The constructor of a resource class.
    pub fn generate_constructor(resource: &ResourceType) -> (r: Result<String, Error>)
        ensures
            r is Ok && r->Ok_0@ == constructor_text(*resource),
    {
        let mut t = "  constructor() {\n".to_owned();
        if resource.base.is_some() {
            t.append("    super();\n");
        }
        t.append("    this.resourceType = \"");
        t.append(resource.name.as_str());
        t.append("\";\n  }\n");
        Ok(t)
    }

    /// The getter of a property.
    pub fn generate_getter(prop: &Property, backend: &TypeScriptBackend) -> (r: Result<String, Error>)
        ensures
            r is Ok && r->Ok_0@ == getter_text(*prop),
    {
        let ts_type = backend.map_type(&prop.property_type);
        let mut t = "  get ".to_owned();
        t.append(prop.name.as_str());
        t.append("(): ");
        t.append(ts_type.as_str());
        if Self::is_optional(&prop.cardinality) {
            t.append(" | undefined");
        }
        t.append(" {\n    return this._");
        t.append(prop.name.as_str());
        t.append(";\n  }\n");
        Ok(t)
    }

    /// The setter of a property.
    pub fn generate_setter(prop: &Property, backend: &TypeScriptBackend) -> (r: Result<String, Error>)
        ensures
            r is Ok && r->Ok_0@ == setter_text(*prop),
    {
        let ts_type = backend.map_type(&prop.property_type);
        let mut t = "  set".to_owned();
        t.append(capitalize(prop.name.as_str()).as_str());
        t.append("(value: ");
        t.append(ts_type.as_str());
        t.append("): this {\n    this._");
        t.append(prop.name.as_str());
        t.append(" = value;\n    return this;\n  }\n");
        Ok(t)
    }

    /// The add method of an array property.
    pub fn generate_add_method(prop: &Property, backend: &TypeScriptBackend) -> (r: Result<String, Error>)
        ensures
            r is Ok && r->Ok_0@ == add_method_text(*prop),
    {
        let element_type = Self::get_element_type(&prop.property_type, backend);
        let n = prop.name.as_str();
        let mut t = "  add".to_owned();
        t.append(capitalize(n).as_str());
        t.append("(value: ");
        t.append(element_type.as_str());
        t.append("): this {\n    if (!this._");
        t.append(n);
        t.append(") {\n      this._");
        t.append(n);
        t.append(" = [];\n    }\n    this._");
        t.append(n);
        t.append(".push(value);\n    return this;\n  }\n");
        Ok(t)
    }

    /// The element type of an array property: its type without `[]`.
    pub fn get_element_type(prop_type: &crate::ir::PropertyType, backend: &TypeScriptBackend) -> (r: String)
        ensures
            r@ == trim_array_suffix(ts_type_of(*prop_type)),
    {
        let full_type = backend.map_type(prop_type);
        Self::trim_array_suffix(full_type.as_str())
    }

    /// The has method of a property.
    pub fn generate_has_method(prop: &Property) -> (r: Result<String, Error>)
        ensures
            r is Ok && r->Ok_0@ == has_method_text(*prop),
    {
        let n = prop.name.as_str();
        let mut t = "  has".to_owned();
        t.append(capitalize(n).as_str());
        t.append("(): boolean {\n    return this._");
        t.append(n);
        t.append(" !== undefined && this._");
        t.append(n);
        t.append(" !== null;\n  }\n");
        Ok(t)
    }

    /// Appends the text of one property for listing `part`.
    fn append_part(code: &mut String, prop: &Property, part: Part, backend: &TypeScriptBackend)
        ensures
            final(code)@ == old(code)@ + part_text(*prop, part),
    {
        let n = prop.name.as_str();
        match part {
            Part::Field => {
                match Self::generate_private_field(prop, backend) {
                    Ok(t) => code.append(t.as_str()),
                    Err(_) => {},
                }
            },
            Part::Accessors => {
                let ghost c0 = code@;
                match Self::generate_getter(prop, backend) {
                    Ok(t) => code.append(t.as_str()),
                    Err(_) => {},
                }
                code.append("\n");
                match Self::generate_setter(prop, backend) {
                    Ok(t) => code.append(t.as_str()),
                    Err(_) => {},
                }
                code.append("\n");
                assert(code@ =~= c0 + part_text(*prop, part));
            },
            Part::Builders => {
                let ghost c0 = code@;
                if Self::is_array_property(prop) {
                    match Self::generate_add_method(prop, backend) {
                        Ok(t) => code.append(t.as_str()),
                        Err(_) => {},
                    }
                    code.append("\n");
                }
                let ghost c1 = code@;
                match Self::generate_has_method(prop) {
                    Ok(t) => code.append(t.as_str()),
                    Err(_) => {},
                }
                code.append("\n");
                assert(code@ =~= c0 + part_text(*prop, part));
            },
            Part::ToJson => {
                code.append("    if (this._");
                code.append(n);
                code.append(" !== undefined) {\n      obj.");
                code.append(n);
                code.append(" = this._");
                code.append(n);
                code.append(";\n    }\n");
                assert(code@ =~= old(code)@ + part_text(*prop, part));
            },
            Part::Parse => {
                code.append("    if (json.");
                code.append(n);
                code.append(" !== undefined) {\n      instance.set");
                code.append(capitalize(n).as_str());
                code.append("(json.");
                code.append(n);
                code.append(");\n    }\n");
                assert(code@ =~= old(code)@ + part_text(*prop, part));
            },
        }
    }

    /// Appends the texts of all properties for listing `part`.
    fn append_listing(code: &mut String, props: &Vec<Property>, part: Part, backend: &TypeScriptBackend)
        ensures
            final(code)@ == old(code)@ + listing(props@, part),
    {
        let mut i: usize = 0;
        while i < props.len()
            invariant
                i <= props@.len(),
                code@ == old(code)@ + listing(props@.subrange(0, i as int), part),
            decreases props.len() - i,
        {
            assert(props@.subrange(0, i + 1).drop_last() =~= props@.subrange(0, i as int));
            let ghost c0 = code@;
            Self::append_part(code, &props[i], part, backend);
            assert(code@ =~= old(code)@ + listing(props@.subrange(0, i + 1), part));
            i = i + 1;
        }
        assert(props@.subrange(0, props@.len() as int) =~= props@);
    }

    /// The toJSON method of a resource class.
    pub fn generate_to_json(resource: &ResourceType, backend: &TypeScriptBackend) -> (r: Result<String, Error>)
        ensures
            r is Ok && r->Ok_0@ == to_json_text(resource.properties@),
    {
        let mut t = "  toJSON(): any {\n    const obj: any = {\n      resourceType: this.resourceType\n    };\n".to_owned();
        Self::append_listing(&mut t, &resource.properties, Part::ToJson, backend);
        t.append("    return obj;\n  }\n");
        Ok(t)
    }

    /// The toJSON method of a datatype class.
    pub fn generate_datatype_to_json(datatype: &DataType, backend: &TypeScriptBackend) -> (r: Result<String, Error>)
        ensures
            r is Ok && r->Ok_0@ == datatype_to_json_text(datatype.properties@),
    {
        let mut t = "  toJSON(): any {\n    const obj: any = {};\n".to_owned();
        Self::append_listing(&mut t, &datatype.properties, Part::ToJson, backend);
        t.append("    return obj;\n  }\n");
        Ok(t)
    }

    /// The static parse method of class `name` with properties `props`.
    fn parse_method(name: &str, props: &Vec<Property>, backend: &TypeScriptBackend) -> (r: String)
        ensures
            r@ == parse_method_text(name@, props@),
    {
        let mut t = "  static parse(json: any): ".to_owned();
        t.append(name);
        t.append(" {\n    const instance = new ");
        t.append(name);
        t.append("();\n");
        Self::append_listing(&mut t, props, Part::Parse, backend);
        t.append("    return instance;\n  }\n");
        t
    }

    /// The static parse method of a resource class.
    pub fn generate_parse_method(resource: &ResourceType, backend: &TypeScriptBackend) -> (r: Result<String, Error>)
        ensures
            r is Ok && r->Ok_0@ == parse_method_text(resource.name@, resource.properties@),
    {
        Ok(Self::parse_method(resource.name.as_str(), &resource.properties, backend))
    }

    /// The static parse method of a datatype class.
    pub fn generate_datatype_parse_method(datatype: &DataType, backend: &TypeScriptBackend) -> (r: Result<String, Error>)
        ensures
            r is Ok && r->Ok_0@ == parse_method_text(datatype.name@, datatype.properties@),
    {
        Ok(Self::parse_method(datatype.name.as_str(), &datatype.properties, backend))
    }

    /// Appends the documentation and declaration line of a class.
    fn append_head(code: &mut String, name: &str, base: &Option<String>, short: &str)
        ensures
            final(code)@ == old(code)@ + class_head(name@, *base, short@),
    {
        let ghost c0 = code@;
        if short.unicode_len() > 0 {
            code.append(Self::generate_jsdoc(short).as_str());
            code.append("\n");
        }
        let ghost c1 = code@;
        code.append("export class ");
        code.append(name);
        match base {
            Some(b) => {
                code.append(" extends ");
                code.append(b.as_str());
            },
            None => {},
        }
        code.append(" {\n");
        assert(code@ =~= c0 + class_head(name@, *base, short@));
    }

    /// The TypeScript class of a resource: fields, constructor, accessors,
    /// builders, toJSON and parse.
    pub fn generate_resource_class(resource: &ResourceType, backend: &TypeScriptBackend) -> (r: Result<String, Error>)
        ensures
            r is Ok && r->Ok_0@ == resource_class_text(*resource),
    {
        let mut code = String::new();
        Self::append_head(&mut code, resource.name.as_str(), &resource.base, resource.documentation.short.as_str());
        code.append("  resourceType: string;\n\n");
        Self::append_listing(&mut code, &resource.properties, Part::Field, backend);
        code.append("\n");
        match Self::generate_constructor(resource) {
            Ok(t) => code.append(t.as_str()),
            Err(e) => return Err(e),
        }
        code.append("\n");
        Self::append_listing(&mut code, &resource.properties, Part::Accessors, backend);
        Self::append_listing(&mut code, &resource.properties, Part::Builders, backend);
        match Self::generate_to_json(resource, backend) {
            Ok(t) => code.append(t.as_str()),
            Err(e) => return Err(e),
        }
        code.append("\n");
        match Self::generate_parse_method(resource, backend) {
            Ok(t) => code.append(t.as_str()),
            Err(e) => return Err(e),
        }
        code.append("}\n");
        assert(code@ =~= resource_class_text(*resource));
        Ok(code)
    }

    /// The TypeScript class of a datatype: fields, constructor, accessors,
    /// builders, toJSON and parse.
    pub fn generate_datatype_class(datatype: &DataType, backend: &TypeScriptBackend) -> (r: Result<String, Error>)
        ensures
            r is Ok && r->Ok_0@ == datatype_class_text(*datatype),
    {
        let mut code = String::new();
        Self::append_head(&mut code, datatype.name.as_str(), &datatype.base, datatype.documentation.short.as_str());
        Self::append_listing(&mut code, &datatype.properties, Part::Field, backend);
        code.append("\n");
        code.append("  constructor() {\n");
        if datatype.base.is_some() {
            code.append("    super();\n");
        }
        code.append("  }\n\n");
        Self::append_listing(&mut code, &datatype.properties, Part::Accessors, backend);
        Self::append_listing(&mut code, &datatype.properties, Part::Builders, backend);
        match Self::generate_datatype_to_json(datatype, backend) {
            Ok(t) => code.append(t.as_str()),
            Err(e) => return Err(e),
        }
        code.append("\n");
        match Self::generate_datatype_parse_method(datatype, backend) {
            Ok(t) => code.append(t.as_str()),
            Err(e) => return Err(e),
        }
        code.append("}\n");
        assert(code@ =~= datatype_class_text(*datatype));
        Ok(code)
    }
}

} // verus!
