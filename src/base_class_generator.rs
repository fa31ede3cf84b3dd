//! TypeScript base classes of the FHIR type hierarchy: Resource,
//! DomainResource, Element and BackboneElement.

use vstd::prelude::*;
use crate::casing::{capitalize, capitalized};
use crate::error::Error;
use crate::extension_generator::{generic_extension_methods_text, ExtensionGenerator};

verus! {

/// The getter, setter and has methods of property `prop_name`.
pub open spec fn property_methods_text(prop_name: Seq<char>, ts_type: Seq<char>, description: Seq<char>) -> Seq<char> {
    "  /**\n   * "@
    + description
    + "\n   */\n  get "@
    + prop_name
    + "(): "@
    + ts_type
    + " | undefined {\n    return this._"@
    + prop_name
    + ";\n  }\n\n  /**\n   * Set "@
    + prop_name
    + "\n   */\n  set"@
    + capitalized(prop_name)
    + "(value: "@
    + ts_type
    + "): this {\n    this._"@
    + prop_name
    + " = value;\n    return this;\n  }\n\n  /**\n   * Check if "@
    + prop_name
    + " is set\n   */\n  has"@
    + capitalized(prop_name)
    + "(): boolean {\n    return this._"@
    + prop_name
    + " !== undefined && this._"@
    + prop_name
    + " !== null;\n  }\n\n"@
}

/// The getter, setter, add and has methods of array property `prop_name`.
pub open spec fn array_property_methods_text(prop_name: Seq<char>, element_type: Seq<char>, description: Seq<char>) -> Seq<char> {
    "  /**\n   * "@
    + description
    + "\n   */\n  get "@
    + prop_name
    + "(): "@
    + element_type
    + "[] | undefined {\n    return this._"@
    + prop_name
    + ";\n  }\n\n  /**\n   * Set "@
    + prop_name
    + "\n   */\n  set"@
    + capitalized(prop_name)
    + "(value: "@
    + element_type
    + "[]): this {\n    this._"@
    + prop_name
    + " = value;\n    return this;\n  }\n\n  /**\n   * Add to "@
    + prop_name
    + "\n   */\n  add"@
    + capitalized(prop_name)
    + "(value: "@
    + element_type
    + "): this {\n    if (!this._"@
    + prop_name
    + ") {\n      this._"@
    + prop_name
    + " = [];\n    }\n    this._"@
    + prop_name
    + ".push(value);\n    return this;\n  }\n\n  /**\n   * Check if "@
    + prop_name
    + " is set\n   */\n  has"@
    + capitalized(prop_name)
    + "(): boolean {\n    return this._"@
    + prop_name
    + " !== undefined && this._"@
    + prop_name
    + " !== null && this._"@
    + prop_name
    + ".length > 0;\n  }\n\n"@
}

/// The Resource base class.
pub open spec fn resource_base_class_text() -> Seq<char> {
    "/**\n * Base Resource class for all FHIR resources\n * @abstract\n */\nexport abstract class Resource {\n  resourceType: string;\n\n  private _id?: string;\n  private _meta?: Meta;\n  private _implicitRules?: string;\n  private _language?: string;\n\n  protected constructor(resourceType: string) {\n    this.resourceType = resourceType;\n  }\n\n"@
    + property_methods_text("id"@, "string"@, "Logical id of this resource"@)
    + property_methods_text("meta"@, "Meta"@, "Metadata about the resource"@)
    + property_methods_text("implicitRules"@, "string"@, "A set of rules under which this content was created"@)
    + property_methods_text("language"@, "string"@, "Language of the resource content"@)
    + "  /**\n   * Serialize to JSON\n   */\n  abstract toJSON(): any;\n}\n"@
}

/// The DomainResource base class.
pub open spec fn domain_resource_base_class_text() -> Seq<char> {
    "/**\n * Base DomainResource class - parent for most FHIR resources\n * Adds narrative, contained resources, and extensions\n * @abstract\n */\nexport abstract class DomainResource extends Resource {\n  private _text?: Narrative;\n  private _contained?: Resource[];\n  private _extension?: Extension[];\n  private _modifierExtension?: Extension[];\n\n  protected constructor(resourceType: string) {\n    super(resourceType);\n  }\n\n"@
    + property_methods_text("text"@, "Narrative"@, "Text summary of the resource"@)
    + array_property_methods_text("contained"@, "Resource"@, "Contained, inline Resources"@)
    + array_property_methods_text("extension"@, "Extension"@, "Additional content defined by implementations"@)
    + array_property_methods_text("modifierExtension"@, "Extension"@, "Extensions that cannot be ignored"@)
    + "\n"@
    + generic_extension_methods_text()
    + "}\n"@
}

/// The Element base class.
pub open spec fn element_base_class_text() -> Seq<char> {
    "/**\n * Base Element class for all FHIR data types\n * @abstract\n */\nexport abstract class Element {\n  private _id?: string;\n  private _extension?: Extension[];\n\n  protected constructor() {}\n\n"@
    + property_methods_text("id"@, "string"@, "Unique id for inter-element referencing"@)
    + array_property_methods_text("extension"@, "Extension"@, "Additional content defined by implementations"@)
    + "\n"@
    + generic_extension_methods_text()
    + "\n  /**\n   * Serialize to JSON\n   */\n  abstract toJSON(): any;\n}\n"@
}

/// The BackboneElement base class.
pub open spec fn backbone_element_base_class_text() -> Seq<char> {
    "/**\n * Base BackboneElement class\n * Used for nested complex structures within resources\n * @abstract\n */\nexport abstract class BackboneElement extends Element {\n  private _modifierExtension?: Extension[];\n\n  protected constructor() {\n    super();\n  }\n\n"@
    + array_property_methods_text("modifierExtension"@, "Extension"@, "Extensions that cannot be ignored even if unrecognized"@)
    + "}\n"@
}

/// The file of all four base classes.
pub open spec fn all_base_classes_text() -> Seq<char> {
    "/**\n * FHIR Base Classes\n * Generated base class hierarchy for FHIR resources and data types\n */\n\nimport { Extension } from './Extension';\nimport { Meta } from './Meta';\nimport { Narrative } from './Narrative';\n\n"@
    + resource_base_class_text()
    + "\n\n"@
    + domain_resource_base_class_text()
    + "\n\n"@
    + element_base_class_text()
    + "\n\n"@
    + backbone_element_base_class_text()
}

/// Generator for the TypeScript base classes.
pub struct BaseClassGenerator;

impl BaseClassGenerator {
    /// The Resource abstract base class.
    pub fn generate_resource_base_class() -> (r: Result<String, Error>)
        ensures
            r is Ok && r->Ok_0@ == resource_base_class_text(),
    {
        let mut t = "/**\n * Base Resource class for all FHIR resources\n * @abstract\n */\nexport abstract class Resource {\n  resourceType: string;\n\n  private _id?: string;\n  private _meta?: Meta;\n  private _implicitRules?: string;\n  private _language?: string;\n\n  protected constructor(resourceType: string) {\n    this.resourceType = resourceType;\n  }\n\n".to_owned();
        add_property_methods(&mut t, "id", "string", "Logical id of this resource");
        add_property_methods(&mut t, "meta", "Meta", "Metadata about the resource");
        add_property_methods(&mut t, "implicitRules", "string", "A set of rules under which this content was created");
        add_property_methods(&mut t, "language", "string", "Language of the resource content");
        t.append("  /**\n   * Serialize to JSON\n   */\n  abstract toJSON(): any;\n}\n");
        Ok(t)
    }

    /// The DomainResource abstract base class.
    pub fn generate_domain_resource_base_class() -> (r: Result<String, Error>)
        ensures
            r is Ok && r->Ok_0@ == domain_resource_base_class_text(),
    {
        let mut t = "/**\n * Base DomainResource class - parent for most FHIR resources\n * Adds narrative, contained resources, and extensions\n * @abstract\n */\nexport abstract class DomainResource extends Resource {\n  private _text?: Narrative;\n  private _contained?: Resource[];\n  private _extension?: Extension[];\n  private _modifierExtension?: Extension[];\n\n  protected constructor(resourceType: string) {\n    super(resourceType);\n  }\n\n".to_owned();
        add_property_methods(&mut t, "text", "Narrative", "Text summary of the resource");
        add_array_property_methods(&mut t, "contained", "Resource", "Contained, inline Resources");
        add_array_property_methods(&mut t, "extension", "Extension", "Additional content defined by implementations");
        add_array_property_methods(&mut t, "modifierExtension", "Extension", "Extensions that cannot be ignored");
        t.append("\n");
        match ExtensionGenerator::generate_generic_extension_methods() { Ok(g) => t.append(g.as_str()), Err(e) => return Err(e) };
        t.append("}\n");
        Ok(t)
    }

    /// The Element abstract base class.
    pub fn generate_element_base_class() -> (r: Result<String, Error>)
        ensures
            r is Ok && r->Ok_0@ == element_base_class_text(),
    {
        let mut t = "/**\n * Base Element class for all FHIR data types\n * @abstract\n */\nexport abstract class Element {\n  private _id?: string;\n  private _extension?: Extension[];\n\n  protected constructor() {}\n\n".to_owned();
        add_property_methods(&mut t, "id", "string", "Unique id for inter-element referencing");
        add_array_property_methods(&mut t, "extension", "Extension", "Additional content defined by implementations");
        t.append("\n");
        match ExtensionGenerator::generate_generic_extension_methods() { Ok(g) => t.append(g.as_str()), Err(e) => return Err(e) };
        t.append("\n  /**\n   * Serialize to JSON\n   */\n  abstract toJSON(): any;\n}\n");
        Ok(t)
    }

    /// The BackboneElement abstract base class.
    pub fn generate_backbone_element_base_class() -> (r: Result<String, Error>)
        ensures
            r is Ok && r->Ok_0@ == backbone_element_base_class_text(),
    {
        let mut t = "/**\n * Base BackboneElement class\n * Used for nested complex structures within resources\n * @abstract\n */\nexport abstract class BackboneElement extends Element {\n  private _modifierExtension?: Extension[];\n\n  protected constructor() {\n    super();\n  }\n\n".to_owned();
        add_array_property_methods(&mut t, "modifierExtension", "Extension", "Extensions that cannot be ignored even if unrecognized");
        t.append("}\n");
        Ok(t)
    }

    /// All four base classes in one file.
    pub fn generate_all_base_classes() -> (r: Result<String, Error>)
        ensures
            r is Ok && r->Ok_0@ == all_base_classes_text(),
    {
        let mut t = "/**\n * FHIR Base Classes\n * Generated base class hierarchy for FHIR resources and data types\n */\n\nimport { Extension } from './Extension';\nimport { Meta } from './Meta';\nimport { Narrative } from './Narrative';\n\n".to_owned();
        match Self::generate_resource_base_class() { Ok(g) => t.append(g.as_str()), Err(e) => return Err(e) };
        t.append("\n\n");
        match Self::generate_domain_resource_base_class() { Ok(g) => t.append(g.as_str()), Err(e) => return Err(e) };
        t.append("\n\n");
        match Self::generate_element_base_class() { Ok(g) => t.append(g.as_str()), Err(e) => return Err(e) };
        t.append("\n\n");
        match Self::generate_backbone_element_base_class() { Ok(g) => t.append(g.as_str()), Err(e) => return Err(e) };
        Ok(t)
    }

}

/// Appends the getter, setter and has methods of a property.
fn add_property_methods(code: &mut String, prop_name: &str, ts_type: &str, description: &str)
    ensures
        final(code)@ == old(code)@ + property_methods_text(prop_name@, ts_type@, description@),
{
    let cap = capitalize(prop_name);
    let mut t = "  /**\n   * ".to_owned();
    t.append(description);
    t.append("\n   */\n  get ");
    t.append(prop_name);
    t.append("(): ");
    t.append(ts_type);
    t.append(" | undefined {\n    return this._");
    t.append(prop_name);
    t.append(";\n  }\n\n  /**\n   * Set ");
    t.append(prop_name);
    t.append("\n   */\n  set");
    t.append(cap.as_str());
    t.append("(value: ");
    t.append(ts_type);
    t.append("): this {\n    this._");
    t.append(prop_name);
    t.append(" = value;\n    return this;\n  }\n\n  /**\n   * Check if ");
    t.append(prop_name);
    t.append(" is set\n   */\n  has");
    t.append(cap.as_str());
    t.append("(): boolean {\n    return this._");
    t.append(prop_name);
    t.append(" !== undefined && this._");
    t.append(prop_name);
    t.append(" !== null;\n  }\n\n");
    code.append(t.as_str());
}

/// Appends the getter, setter, add and has methods of an array property.
fn add_array_property_methods(code: &mut String, prop_name: &str, element_type: &str, description: &str)
    ensures
        final(code)@ == old(code)@ + array_property_methods_text(prop_name@, element_type@, description@),
{
    let cap = capitalize(prop_name);
    let mut t = "  /**\n   * ".to_owned();
    t.append(description);
    t.append("\n   */\n  get ");
    t.append(prop_name);
    t.append("(): ");
    t.append(element_type);
    t.append("[] | undefined {\n    return this._");
    t.append(prop_name);
    t.append(";\n  }\n\n  /**\n   * Set ");
    t.append(prop_name);
    t.append("\n   */\n  set");
    t.append(cap.as_str());
    t.append("(value: ");
    t.append(element_type);
    t.append("[]): this {\n    this._");
    t.append(prop_name);
    t.append(" = value;\n    return this;\n  }\n\n  /**\n   * Add to ");
    t.append(prop_name);
    t.append("\n   */\n  add");
    t.append(cap.as_str());
    t.append("(value: ");
    t.append(element_type);
    t.append("): this {\n    if (!this._");
    t.append(prop_name);
    t.append(") {\n      this._");
    t.append(prop_name);
    t.append(" = [];\n    }\n    this._");
    t.append(prop_name);
    t.append(".push(value);\n    return this;\n  }\n\n  /**\n   * Check if ");
    t.append(prop_name);
    t.append(" is set\n   */\n  has");
    t.append(cap.as_str());
    t.append("(): boolean {\n    return this._");
    t.append(prop_name);
    t.append(" !== undefined && this._");
    t.append(prop_name);
    t.append(" !== null && this._");
    t.append(prop_name);
    t.append(".length > 0;\n  }\n\n");
    code.append(t.as_str());
}

} // verus!
