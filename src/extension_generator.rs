//! TypeScript extension helper methods: typed add, get, has and remove
//! methods for FHIR extensions.

use vstd::prelude::*;
use crate::casing::{capitalize, capitalized};
use crate::error::Error;
use crate::text::{after_last, join, joined, last_segment, str_eq};

verus! {

/// Extension value type.
#[derive(Debug)]
pub enum ExtensionValueType {
    /// Primitive type (e.g., string, boolean, integer)
    Primitive(String),
    /// Complex type (e.g., Coding, CodeableConcept)
    Complex(String),
    /// Multiple possible types
    Choice(Vec<String>),
}

/// Extension definition with metadata.
#[derive(Debug)]
pub struct ExtensionDefinition {
    /// Extension canonical URL
    pub url: String,
    /// Extension name (derived from URL)
    pub name: String,
    /// Value type (e.g., "string", "dateTime", "Coding")
    pub value_type: ExtensionValueType,
    /// Target resource types this extension applies to
    pub target_types: Vec<String>,
    /// Short description
    pub description: String,
    /// Cardinality (0..1 or 0..*)
    pub is_array: bool,
}

/// The TypeScript type of an extension's value.
pub open spec fn ts_type_spec(v: ExtensionValueType) -> Seq<char> {
    match v {
        ExtensionValueType::Primitive(t) => if t@ == "boolean"@ {
            "boolean"@
        } else if t@ == "integer"@ || t@ == "positiveInt"@ || t@ == "unsignedInt"@ || t@
            == "decimal"@ {
            "number"@
        } else {
            "string"@
        },
        ExtensionValueType::Complex(t) => t@,
        ExtensionValueType::Choice(ts) => joined(ts@.map_values(|s: String| s@), " | "@),
    }
}

/// The name of the field that holds an extension's value.
pub open spec fn value_field_spec(v: ExtensionValueType) -> Seq<char> {
    match v {
        ExtensionValueType::Primitive(t) => "value"@ + capitalized(t@),
        ExtensionValueType::Complex(t) => "value"@ + capitalized(t@),
        ExtensionValueType::Choice(_) => "value"@,
    }
}

/// The name an extension URL gives: its last path segment, after its last `-`.
pub open spec fn extension_name(url: Seq<char>) -> Seq<char> {
    after_last(after_last(url, '/'), '-')
}

impl ExtensionDefinition {
    /// An extension definition for `url`, named after its URL, with a string
    /// value, no target types and a single value.
    pub fn from_url(url: &str) -> (r: Self)
        ensures
            r.url@ == url@,
            r.name@ == extension_name(url@),
            r.value_type is Primitive && r.value_type->Primitive_0@ == "string"@,
            r.target_types@.len() == 0,
            r.description@ == extension_name(url@) + " extension"@,
            !r.is_array,
    {
        let segment = last_segment(url, '/');
        let name = last_segment(segment.as_str(), '-');
        let mut description = name.clone();
        description.append(" extension");
        ExtensionDefinition {
            url: url.to_owned(),
            name,
            value_type: ExtensionValueType::Primitive("string".to_owned()),
            target_types: Vec::new(),
            description,
            is_array: false,
        }
    }

    /// The TypeScript type for the value.
    pub fn get_typescript_type(&self) -> (r: String)
        ensures
            r@ == ts_type_spec(self.value_type),
    {
        match &self.value_type {
            ExtensionValueType::Primitive(t) => {
                let t = t.as_str();
                if str_eq(t, "boolean") {
                    "boolean".to_owned()
                } else if str_eq(t, "integer") || str_eq(t, "positiveInt") || str_eq(t, "unsignedInt")
                    || str_eq(t, "decimal") {
                    "number".to_owned()
                } else {
                    "string".to_owned()
                }
            },
            ExtensionValueType::Complex(t) => t.clone(),
            ExtensionValueType::Choice(types) => join(types.as_slice(), " | "),
        }
    }

    /// The value field name (e.g., "valueString", "valueDateTime").
    pub fn get_value_field_name(&self) -> (r: String)
        ensures
            r@ == value_field_spec(self.value_type),
    {
        match &self.value_type {
            ExtensionValueType::Primitive(t) => {
                let mut r = "value".to_owned();
                r.append(capitalize(t.as_str()).as_str());
                r
            },
            ExtensionValueType::Complex(t) => {
                let mut r = "value".to_owned();
                r.append(capitalize(t.as_str()).as_str());
                r
            },
            ExtensionValueType::Choice(_) => "value".to_owned(),
        }
    }
}

/// The text of the method that adds extension `ext`.
pub open spec fn add_method_text(ext: ExtensionDefinition) -> Seq<char> {
    "  /**\n   * Add "@
    + ext.name@
    + " extension\n   * @param value - "@
    + ext.description@
    + "\n   */\n  add"@
    + capitalized(ext.name@)
    + "Extension(value: "@
    + ts_type_spec(ext.value_type)
    + "): this {\n    if (!this._extension) {\n      this._extension = [];\n    }\n    this._extension.push({\n      url: \""@
    + ext.url@
    + "\",\n      "@
    + value_field_spec(ext.value_type)
    + ": value\n    });\n    return this;\n  }\n"@
}

/// The text of the method that reads the values of a repeating extension `ext`.
pub open spec fn get_array_method_text(ext: ExtensionDefinition) -> Seq<char> {
    "  /**\n   * Get "@
    + ext.name@
    + " extension value\n   * @returns Array of extension values\n   */\n  get"@
    + capitalized(ext.name@)
    + "Extension(): "@
    + ts_type_spec(ext.value_type)
    + "[] {\n    if (!this._extension) {\n      return [];\n    }\n    return this._extension\n      .filter(e => e.url === \""@
    + ext.url@
    + "\")\n      .map(e => e."@
    + value_field_spec(ext.value_type)
    + ")\n      .filter((v): v is "@
    + ts_type_spec(ext.value_type)
    + " => v !== undefined);\n  }\n"@
}

/// The text of the method that reads the value of a single extension `ext`.
pub open spec fn get_single_method_text(ext: ExtensionDefinition) -> Seq<char> {
    "  /**\n   * Get "@
    + ext.name@
    + " extension value\n   * @returns Extension value or undefined\n   */\n  get"@
    + capitalized(ext.name@)
    + "Extension(): "@
    + ts_type_spec(ext.value_type)
    + " | undefined {\n    const ext = this._extension?.find(\n      e => e.url === \""@
    + ext.url@
    + "\"\n    );\n    return ext?."@
    + value_field_spec(ext.value_type)
    + ";\n  }\n"@
}

/// The text of the method that tells whether extension `ext` is present.
pub open spec fn has_method_text(ext: ExtensionDefinition) -> Seq<char> {
    "  /**\n   * Check if "@
    + ext.name@
    + " extension exists\n   */\n  has"@
    + capitalized(ext.name@)
    + "Extension(): boolean {\n    return this._extension?.some(\n      e => e.url === \""@
    + ext.url@
    + "\"\n    ) ?? false;\n  }\n"@
}

/// The text of the method that removes extension `ext`.
pub open spec fn remove_method_text(ext: ExtensionDefinition) -> Seq<char> {
    "  /**\n   * Remove "@
    + ext.name@
    + " extension\n   */\n  remove"@
    + capitalized(ext.name@)
    + "Extension(): this {\n    if (this._extension) {\n      this._extension = this._extension.filter(\n        e => e.url !== \""@
    + ext.url@
    + "\"\n      );\n    }\n    return this;\n  }\n"@
}

/// The text of the generic extension methods of a base class.
pub open spec fn generic_extension_methods_text() -> Seq<char> {
    "  /**\n   * Add a generic extension\n   * @param extension - Extension object to add\n   */\n  addExtension(extension: Extension): this {\n    if (!this._extension) {\n      this._extension = [];\n    }\n    this._extension.push(extension);\n    return this;\n  }\n\n  /**\n   * Get extension by URL\n   * @param url - Extension canonical URL\n   */\n  getExtensionByUrl(url: string): Extension | undefined {\n    return this._extension?.find(e => e.url === url);\n  }\n\n  /**\n   * Get all extensions by URL\n   * @param url - Extension canonical URL\n   */\n  getExtensionsByUrl(url: string): Extension[] {\n    return this._extension?.filter(e => e.url === url) ?? [];\n  }\n\n  /**\n   * Remove extensions by URL\n   * @param url - Extension canonical URL\n   */\n  removeExtension(url: string): this {\n    if (this._extension) {\n      this._extension = this._extension.filter(e => e.url !== url);\n    }\n    return this;\n  }\n"@
}

/// The text of the get method of extension `ext`.
pub open spec fn get_method_text(ext: ExtensionDefinition) -> Seq<char> {
    if ext.is_array {
        get_array_method_text(ext)
    } else {
        get_single_method_text(ext)
    }
}

/// The text of all four methods of extension `ext`.
pub open spec fn all_methods_text(ext: ExtensionDefinition) -> Seq<char> {
    add_method_text(ext) + "\n"@ + get_method_text(ext) + "\n"@ + has_method_text(ext) + "\n"@
        + remove_method_text(ext)
}

/// Generator for extension helper methods.
pub struct ExtensionGenerator;

impl ExtensionGenerator {
    /// The add method of an extension.
    pub fn generate_add_method(ext: &ExtensionDefinition) -> (r: Result<String, Error>)
        ensures
            r is Ok && r->Ok_0@ == add_method_text(*ext),
    {
    let cap = capitalize(ext.name.as_str());
    let ts = ext.get_typescript_type();
    let vf = ext.get_value_field_name();
    let mut t = "  /**\n   * Add ".to_owned();
    t.append(ext.name.as_str());
    t.append(" extension\n   * @param value - ");
    t.append(ext.description.as_str());
    t.append("\n   */\n  add");
    t.append(cap.as_str());
    t.append("Extension(value: ");
    t.append(ts.as_str());
    t.append("): this {\n    if (!this._extension) {\n      this._extension = [];\n    }\n    this._extension.push({\n      url: \"");
    t.append(ext.url.as_str());
    t.append("\",\n      ");
    t.append(vf.as_str());
    t.append(": value\n    });\n    return this;\n  }\n");
        Ok(t)
    }

    /// The get method of an extension: all values when it repeats, else the
    /// single value or undefined.
    pub fn generate_get_method(ext: &ExtensionDefinition) -> (r: Result<String, Error>)
        ensures
            r is Ok && r->Ok_0@ == get_method_text(*ext),
    {
        let cap = capitalize(ext.name.as_str());
        let ts = ext.get_typescript_type();
        let vf = ext.get_value_field_name();
        if ext.is_array {
        let mut t = "  /**\n   * Get ".to_owned();
        t.append(ext.name.as_str());
        t.append(" extension value\n   * @returns Array of extension values\n   */\n  get");
        t.append(cap.as_str());
        t.append("Extension(): ");
        t.append(ts.as_str());
        t.append("[] {\n    if (!this._extension) {\n      return [];\n    }\n    return this._extension\n      .filter(e => e.url === \"");
        t.append(ext.url.as_str());
        t.append("\")\n      .map(e => e.");
        t.append(vf.as_str());
        t.append(")\n      .filter((v): v is ");
        t.append(ts.as_str());
        t.append(" => v !== undefined);\n  }\n");
            Ok(t)
        } else {
        let mut t = "  /**\n   * Get ".to_owned();
        t.append(ext.name.as_str());
        t.append(" extension value\n   * @returns Extension value or undefined\n   */\n  get");
        t.append(cap.as_str());
        t.append("Extension(): ");
        t.append(ts.as_str());
        t.append(" | undefined {\n    const ext = this._extension?.find(\n      e => e.url === \"");
        t.append(ext.url.as_str());
        t.append("\"\n    );\n    return ext?.");
        t.append(vf.as_str());
        t.append(";\n  }\n");
            Ok(t)
        }
    }

    /// The has method of an extension.
    pub fn generate_has_method(ext: &ExtensionDefinition) -> (r: Result<String, Error>)
        ensures
            r is Ok && r->Ok_0@ == has_method_text(*ext),
    {
    let cap = capitalize(ext.name.as_str());
    let mut t = "  /**\n   * Check if ".to_owned();
    t.append(ext.name.as_str());
    t.append(" extension exists\n   */\n  has");
    t.append(cap.as_str());
    t.append("Extension(): boolean {\n    return this._extension?.some(\n      e => e.url === \"");
    t.append(ext.url.as_str());
    t.append("\"\n    ) ?? false;\n  }\n");
        Ok(t)
    }

    /// The remove method of an extension.
    pub fn generate_remove_method(ext: &ExtensionDefinition) -> (r: Result<String, Error>)
        ensures
            r is Ok && r->Ok_0@ == remove_method_text(*ext),
    {
    let cap = capitalize(ext.name.as_str());
    let mut t = "  /**\n   * Remove ".to_owned();
    t.append(ext.name.as_str());
    t.append(" extension\n   */\n  remove");
    t.append(cap.as_str());
    t.append("Extension(): this {\n    if (this._extension) {\n      this._extension = this._extension.filter(\n        e => e.url !== \"");
    t.append(ext.url.as_str());
    t.append("\"\n      );\n    }\n    return this;\n  }\n");
        Ok(t)
    }

    /// All four methods of an extension, separated by blank lines.
    pub fn generate_all_methods(ext: &ExtensionDefinition) -> (r: Result<String, Error>)
        ensures
            r is Ok && r->Ok_0@ == all_methods_text(*ext),
    {
        let mut code = match Self::generate_add_method(ext) {
            Ok(c) => c,
            Err(e) => return Err(e),
        };
        code.append("\n");
        match Self::generate_get_method(ext) {
            Ok(c) => code.append(c.as_str()),
            Err(e) => return Err(e),
        }
        code.append("\n");
        match Self::generate_has_method(ext) {
            Ok(c) => code.append(c.as_str()),
            Err(e) => return Err(e),
        }
        code.append("\n");
        match Self::generate_remove_method(ext) {
            Ok(c) => code.append(c.as_str()),
            Err(e) => return Err(e),
        }
        Ok(code)
    }

    /// The generic extension methods of the DomainResource and Element base
    /// classes.
    pub fn generate_generic_extension_methods() -> (r: Result<String, Error>)
        ensures
            r is Ok && r->Ok_0@ == generic_extension_methods_text(),
    {
        let mut t = "  /**\n   * Add a generic extension\n   * @param extension - Extension object to add\n   */\n  addExtension(extension: Extension): this {\n    if (!this._extension) {\n      this._extension = [];\n    }\n    this._extension.push(extension);\n    return this;\n  }\n\n  /**\n   * Get extension by URL\n   * @param url - Extension canonical URL\n   */\n  getExtensionByUrl(url: string): Extension | undefined {\n    return this._extension?.find(e => e.url === url);\n  }\n\n  /**\n   * Get all extensions by URL\n   * @param url - Extension canonical URL\n   */\n  getExtensionsByUrl(url: string): Extension[] {\n    return this._extension?.filter(e => e.url === url) ?? [];\n  }\n\n  /**\n   * Remove extensions by URL\n   * @param url - Extension canonical URL\n   */\n  removeExtension(url: string): this {\n    if (this._extension) {\n      this._extension = this._extension.filter(e => e.url !== url);\n    }\n    return this;\n  }\n".to_owned();
        Ok(t)
    }
}

} // verus!
