//! Configuration generation workflow: validate the request, render the
//! configuration section by section, assemble it, and check the result.

use vstd::prelude::*;
use crate::ids::{RouterId, SwitchId, uuid_text};
use crate::infra_events::RouterVendor;
use crate::cisco_ios::{CiscoIosGenerator, append_header, append_global, append_interfaces, append_protocols,
    append_acls, append_footer};
use crate::router_configuration::{InterfaceView, RoutingProtocolConfig, AccessListConfig};
use crate::text::{push_str, push_char, owned, contains_seq, str_contains, opt_view};
use crate::clock::utc_now_text;

verus! {

/// The device a configuration is generated for.
#[derive(Debug, Clone, Copy, PartialEq, Eq, Structural)]
pub enum DeviceType {
    Router(RouterId),
    Switch(SwitchId),
}

/// The generated sections, each once rendered.
#[derive(Debug)]
pub struct ConfigSections {
    pub header: Option<String>,
    pub global_config: Option<String>,
    pub interfaces: Option<String>,
    pub routing_protocols: Option<String>,
    pub access_lists: Option<String>,
    pub footer: Option<String>,
}

impl Default for ConfigSections {
    /// No section rendered.
    fn default() -> (s: Self)
        ensures
            s.header is None && s.global_config is None && s.interfaces is None,
            s.routing_protocols is None && s.access_lists is None && s.footer is None,
    {
        ConfigSections {
            header: None,
            global_config: None,
            interfaces: None,
            routing_protocols: None,
            access_lists: None,
            footer: None,
        }
    }
}

/// State of a configuration generation.
#[derive(Debug)]
pub struct ConfigGenerationContext {
    pub device_id: String,
    pub device_type: DeviceType,
    pub vendor: RouterVendor,
    pub template_type: Option<String>,
    pub config_sections: ConfigSections,
    pub final_config: Option<String>,
    pub validation_results: Vec<String>,
}

/// Error of a generation step.
#[derive(Debug)]
pub enum ConfigGenerationError {
    Validation(String),
    Generation(String),
    Template(String),
}

/// A configuration generation for one device.
#[derive(Debug)]
pub struct ConfigurationGenerationWorkflow {
    pub device_id: String,
    pub device_type: DeviceType,
    pub vendor: RouterVendor,
    pub template_type: Option<String>,
}

impl ConfigurationGenerationWorkflow {
    /// A generation for a router.
    pub fn new_for_router(router_id: RouterId, vendor: RouterVendor, template_type: Option<String>) -> (w: Self)
        ensures
            w.device_id@ == uuid_text(router_id.value),
            w.device_type == DeviceType::Router(router_id),
            w.vendor == vendor,
            w.template_type == template_type,
    {
        ConfigurationGenerationWorkflow {
            device_id: router_id.to_string(),
            device_type: DeviceType::Router(router_id),
            vendor,
            template_type,
        }
    }

    /// A generation for a switch.
    pub fn new_for_switch(switch_id: SwitchId, vendor: RouterVendor, template_type: Option<String>) -> (w: Self)
        ensures
            w.device_id@ == uuid_text(switch_id.value),
            w.device_type == DeviceType::Switch(switch_id),
            w.vendor == vendor,
            w.template_type == template_type,
    {
        ConfigurationGenerationWorkflow {
            device_id: switch_id.to_string(),
            device_type: DeviceType::Switch(switch_id),
            vendor,
            template_type,
        }
    }

    /// The workflow identifier: `config_generation_<device id>`.
    pub fn workflow_id(&self) -> (s: String)
        ensures
            s@ == "config_generation_"@ + self.device_id@,
    {
        let mut s = owned("config_generation_");
        push_str(&mut s, self.device_id.as_str());
        s
    }

    /// The initial context: no section rendered.
    pub fn create_context(&self) -> (c: ConfigGenerationContext)
        ensures
            c.device_id@ == self.device_id@,
            c.device_type == self.device_type,
            c.vendor == self.vendor,
            opt_view(c.template_type) == opt_view(self.template_type),
            c.config_sections.header is None && c.config_sections.global_config is None,
            c.config_sections.interfaces is None && c.config_sections.routing_protocols is None,
            c.config_sections.access_lists is None && c.config_sections.footer is None,
            c.final_config is None,
            c.validation_results@.len() == 0,
    {
        ConfigGenerationContext {
            device_id: self.device_id.clone(),
            device_type: self.device_type,
            vendor: self.vendor,
            template_type: match &self.template_type { Some(t) => Some(t.clone()), None => None },
            config_sections: ConfigSections::default(),
            final_config: None,
            validation_results: Vec::new(),
        }
    }
}

/// Whether the vendor is Cisco.
pub open spec fn is_cisco(v: RouterVendor) -> bool {
    v is Cisco
}

/// The debug text of a device, as in the error report.
pub open spec fn device_debug(t: DeviceType) -> Seq<char> {
    match t {
        DeviceType::Router(id) => "Router(RouterId("@ + uuid_text(id.value) + "))"@,
        DeviceType::Switch(id) => "Switch(SwitchId("@ + uuid_text(id.value) + "))"@,
    }
}

/// The debug text of a vendor other than Cisco.
pub open spec fn vendor_debug(v: RouterVendor) -> Seq<char> {
    match v {
        RouterVendor::Juniper => "Juniper"@,
        RouterVendor::VyOS => "VyOS"@,
        RouterVendor::MikroTik => "MikroTik"@,
        _ => "Generic"@,
    }
}

/// The template types that can be requested.
pub open spec fn known_template(t: Seq<char>) -> bool {
    t == "EdgeRouter"@ || t == "CoreRouter"@ || t == "AccessSwitch"@ || t == "DistributionSwitch"@
}

/// Checks the device and vendor.
#[derive(Debug)]
pub struct ValidateInputStep {
    device_type: DeviceType,
    vendor: RouterVendor,
}

impl ValidateInputStep {
    /// A check of the given device and vendor.
    pub fn new(device_type: DeviceType, vendor: RouterVendor) -> (s: Self)
        ensures
            s.device_type() == device_type,
            s.vendor() == vendor,
    {
        ValidateInputStep { device_type, vendor }
    }

    /// The device checked.
    pub closed spec fn device_type(&self) -> DeviceType {
        self.device_type
    }

    /// The vendor checked.
    pub closed spec fn vendor(&self) -> RouterVendor {
        self.vendor
    }

    /// Accepts Cisco devices with no template or a known one.
    pub fn execute(&self, context: &mut ConfigGenerationContext) -> (r: Result<(), ConfigGenerationError>)
        ensures
            *final(context) == *old(context),
            !is_cisco(old(context).vendor) ==> match r {
                Err(ConfigGenerationError::Validation(m)) => m@ == "Unsupported device/vendor combination: "@
                    + device_debug(old(context).device_type) + "/"@ + vendor_debug(old(context).vendor),
                _ => false,
            },
            is_cisco(old(context).vendor) ==> match old(context).template_type {
                Some(t) => if known_template(t@) {
                    r.is_ok()
                } else {
                    match r {
                        Err(ConfigGenerationError::Validation(m)) => m@ == "Unknown template type: "@ + t@,
                        _ => false,
                    }
                },
                None => r.is_ok(),
            },
    {
        match context.vendor {
            RouterVendor::Cisco { .. } => {}
            _ => {
                let mut m = owned("Unsupported device/vendor combination: ");
                match context.device_type {
                    DeviceType::Router(id) => {
                        push_str(&mut m, "Router(RouterId(");
                        push_str(&mut m, id.to_string().as_str());
                        push_str(&mut m, "))");
                    }
                    DeviceType::Switch(id) => {
                        push_str(&mut m, "Switch(SwitchId(");
                        push_str(&mut m, id.to_string().as_str());
                        push_str(&mut m, "))");
                    }
                }
                push_str(&mut m, "/");
                match context.vendor {
                    RouterVendor::Juniper => push_str(&mut m, "Juniper"),
                    RouterVendor::VyOS => push_str(&mut m, "VyOS"),
                    RouterVendor::MikroTik => push_str(&mut m, "MikroTik"),
                    _ => push_str(&mut m, "Generic"),
                }
                return Err(ConfigGenerationError::Validation(m));
            }
        }
        match &context.template_type {
            Some(t) => {
                let ts = t.as_str();
                if string_eq(ts, "EdgeRouter") || string_eq(ts, "CoreRouter") || string_eq(ts, "AccessSwitch")
                    || string_eq(ts, "DistributionSwitch") {
                    Ok(())
                } else {
                    let mut m = owned("Unknown template type: ");
                    push_str(&mut m, ts);
                    Err(ConfigGenerationError::Validation(m))
                }
            }
            None => Ok(()),
        }
    }
}

/// Whether two string slices hold the same text.
fn string_eq(a: &str, b: &str) -> (r: bool)
    ensures
        r == (a@ == b@),
{
    let av = crate::text::chars_of(a);
    let bv = crate::text::chars_of(b);
    if av.len() != bv.len() {
        return false;
    }
    let mut i: usize = 0;
    while i < av.len()
        invariant
            av@ == a@,
            bv@ == b@,
            av@.len() == bv@.len(),
            i <= av@.len(),
            forall|j: int| 0 <= j < i ==> av@[j] == bv@[j],
        decreases av@.len() - i,
    {
        if av[i] != bv[i] {
            return false;
        }
        i = i + 1;
    }
    assert(a@ =~= b@);
    true
}

/// A context with only its sections changed.
pub open spec fn only_sections_changed(a: ConfigGenerationContext, b: ConfigGenerationContext) -> bool {
    b == (ConfigGenerationContext { config_sections: b.config_sections, ..a })
}

/// The generation error with the given message.
pub open spec fn unsupported(r: Result<(), ConfigGenerationError>, what: Seq<char>) -> bool {
    match r {
        Err(ConfigGenerationError::Generation(m)) => m@ == what,
        _ => false,
    }
}

/// Renders the header.
#[derive(Debug)]
pub struct GenerateHeaderStep;

impl GenerateHeaderStep {
    /// The header step.
    pub fn new() -> (s: Self) {
        GenerateHeaderStep
    }

    /// For Cisco, renders the header for the device, stamped with the
    /// current time; other vendors are refused.
    pub fn execute(&self, context: &mut ConfigGenerationContext) -> (r: Result<(), ConfigGenerationError>)
        ensures
            is_cisco(old(context).vendor) ==> r.is_ok() && only_sections_changed(*old(context), *final(context))
                && final(context).config_sections == (ConfigSections {
                    header: final(context).config_sections.header,
                    ..old(context).config_sections
                })
                && exists|t: Seq<char>| opt_view(final(context).config_sections.header)
                    == Some(#[trigger] append_header(Seq::empty(), old(context).device_id@, Some(t))),
            !is_cisco(old(context).vendor) ==> *final(context) == *old(context)
                && unsupported(r, "Unsupported vendor for header generation"@),
    {
        match context.vendor {
            RouterVendor::Cisco { .. } => {
                let generator = CiscoIosGenerator::new();
                let now = utc_now_text();
                let mut header = String::new();
                generator.write_header(context.device_id.as_str(), Some(now.as_str()), &mut header);
                context.config_sections.header = Some(header);
                Ok(())
            }
            _ => Err(ConfigGenerationError::Generation(owned("Unsupported vendor for header generation"))),
        }
    }

    /// Forgets the header.
    pub fn compensate(&self, context: &mut ConfigGenerationContext) -> (r: Result<(), ConfigGenerationError>)
        ensures
            r.is_ok(),
            *final(context) == (ConfigGenerationContext {
                config_sections: ConfigSections { header: None, ..old(context).config_sections },
                ..*old(context)
            }),
    {
        context.config_sections.header = None;
        Ok(())
    }
}

/// Renders the global settings.
#[derive(Debug)]
pub struct GenerateGlobalConfigStep;

impl GenerateGlobalConfigStep {
    /// The global settings step.
    pub fn new() -> (s: Self) {
        GenerateGlobalConfigStep
    }

    /// For Cisco, renders the global settings; other vendors are refused.
    pub fn execute(&self, context: &mut ConfigGenerationContext) -> (r: Result<(), ConfigGenerationError>)
        ensures
            is_cisco(old(context).vendor) ==> r.is_ok() && *final(context) == (ConfigGenerationContext {
                config_sections: ConfigSections {
                    global_config: final(context).config_sections.global_config,
                    ..old(context).config_sections
                },
                ..*old(context)
            }) && opt_view(final(context).config_sections.global_config)
                == Some(append_global(Seq::empty(), old(context).vendor)),
            !is_cisco(old(context).vendor) ==> *final(context) == *old(context)
                && unsupported(r, "Unsupported vendor for global configuration"@),
    {
        match context.vendor {
            RouterVendor::Cisco { .. } => {
                let generator = CiscoIosGenerator::new();
                let mut global = String::new();
                generator.write_global(context.vendor, &mut global);
                context.config_sections.global_config = Some(global);
                Ok(())
            }
            _ => Err(ConfigGenerationError::Generation(owned("Unsupported vendor for global configuration"))),
        }
    }

    /// Forgets the global settings.
    pub fn compensate(&self, context: &mut ConfigGenerationContext) -> (r: Result<(), ConfigGenerationError>)
        ensures
            r.is_ok(),
            *final(context) == (ConfigGenerationContext {
                config_sections: ConfigSections { global_config: None, ..old(context).config_sections },
                ..*old(context)
            }),
    {
        context.config_sections.global_config = None;
        Ok(())
    }
}

/// Renders the interfaces; the request carries none, so the section is
/// empty.
#[derive(Debug)]
pub struct GenerateInterfacesStep;

impl GenerateInterfacesStep {
    /// The interfaces step.
    pub fn new() -> (s: Self) {
        GenerateInterfacesStep
    }

    /// For Cisco, renders an empty interface list; other vendors are
    /// refused.
    pub fn execute(&self, context: &mut ConfigGenerationContext) -> (r: Result<(), ConfigGenerationError>)
        ensures
            is_cisco(old(context).vendor) ==> r.is_ok() && *final(context) == (ConfigGenerationContext {
                config_sections: ConfigSections {
                    interfaces: final(context).config_sections.interfaces,
                    ..old(context).config_sections
                },
                ..*old(context)
            }) && opt_view(final(context).config_sections.interfaces)
                == Some(append_interfaces(Seq::empty(), Seq::<InterfaceView>::empty())),
            !is_cisco(old(context).vendor) ==> *final(context) == *old(context)
                && unsupported(r, "Unsupported vendor for interface configuration"@),
    {
        match context.vendor {
            RouterVendor::Cisco { .. } => {
                context.config_sections.interfaces = Some(String::new());
                Ok(())
            }
            _ => Err(ConfigGenerationError::Generation(owned("Unsupported vendor for interface configuration"))),
        }
    }

    /// Forgets the interfaces.
    pub fn compensate(&self, context: &mut ConfigGenerationContext) -> (r: Result<(), ConfigGenerationError>)
        ensures
            r.is_ok(),
            *final(context) == (ConfigGenerationContext {
                config_sections: ConfigSections { interfaces: None, ..old(context).config_sections },
                ..*old(context)
            }),
    {
        context.config_sections.interfaces = None;
        Ok(())
    }
}

/// Renders the routing protocols; the request carries none, so the section
/// is empty.
#[derive(Debug)]
pub struct GenerateRoutingProtocolsStep;

impl GenerateRoutingProtocolsStep {
    /// The routing protocols step.
    pub fn new() -> (s: Self) {
        GenerateRoutingProtocolsStep
    }

    /// For Cisco, renders an empty protocol list; other vendors are
    /// refused.
    pub fn execute(&self, context: &mut ConfigGenerationContext) -> (r: Result<(), ConfigGenerationError>)
        ensures
            is_cisco(old(context).vendor) ==> r.is_ok() && *final(context) == (ConfigGenerationContext {
                config_sections: ConfigSections {
                    routing_protocols: final(context).config_sections.routing_protocols,
                    ..old(context).config_sections
                },
                ..*old(context)
            }) && opt_view(final(context).config_sections.routing_protocols)
                == Some(append_protocols(Seq::empty(), Seq::<RoutingProtocolConfig>::empty(), false)),
            !is_cisco(old(context).vendor) ==> *final(context) == *old(context)
                && unsupported(r, "Unsupported vendor for routing protocol configuration"@),
    {
        match context.vendor {
            RouterVendor::Cisco { .. } => {
                context.config_sections.routing_protocols = Some(String::new());
                Ok(())
            }
            _ => Err(ConfigGenerationError::Generation(owned("Unsupported vendor for routing protocol configuration"))),
        }
    }

    /// Forgets the routing protocols.
    pub fn compensate(&self, context: &mut ConfigGenerationContext) -> (r: Result<(), ConfigGenerationError>)
        ensures
            r.is_ok(),
            *final(context) == (ConfigGenerationContext {
                config_sections: ConfigSections { routing_protocols: None, ..old(context).config_sections },
                ..*old(context)
            }),
    {
        context.config_sections.routing_protocols = None;
        Ok(())
    }
}

/// Renders the access lists; the request carries none, so the section is
/// empty.
#[derive(Debug)]
pub struct GenerateAccessListsStep;

impl GenerateAccessListsStep {
    /// The access lists step.
    pub fn new() -> (s: Self) {
        GenerateAccessListsStep
    }

    /// For Cisco, renders an empty access-list list; other vendors are
    /// refused.
    pub fn execute(&self, context: &mut ConfigGenerationContext) -> (r: Result<(), ConfigGenerationError>)
        ensures
            is_cisco(old(context).vendor) ==> r.is_ok() && *final(context) == (ConfigGenerationContext {
                config_sections: ConfigSections {
                    access_lists: final(context).config_sections.access_lists,
                    ..old(context).config_sections
                },
                ..*old(context)
            }) && opt_view(final(context).config_sections.access_lists)
                == Some(append_acls(Seq::empty(), Seq::<AccessListConfig>::empty())),
            !is_cisco(old(context).vendor) ==> *final(context) == *old(context)
                && unsupported(r, "Unsupported vendor for access list configuration"@),
    {
        match context.vendor {
            RouterVendor::Cisco { .. } => {
                context.config_sections.access_lists = Some(String::new());
                Ok(())
            }
            _ => Err(ConfigGenerationError::Generation(owned("Unsupported vendor for access list configuration"))),
        }
    }

    /// Forgets the access lists.
    pub fn compensate(&self, context: &mut ConfigGenerationContext) -> (r: Result<(), ConfigGenerationError>)
        ensures
            r.is_ok(),
            *final(context) == (ConfigGenerationContext {
                config_sections: ConfigSections { access_lists: None, ..old(context).config_sections },
                ..*old(context)
            }),
    {
        context.config_sections.access_lists = None;
        Ok(())
    }
}

/// A section followed by a line break, when rendered.
pub open spec fn section_line(s: Option<String>) -> Seq<char> {
    match s {
        Some(t) => t@ + "\n"@,
        None => Seq::empty(),
    }
}

/// The assembled configuration: the rendered sections, each on its own,
/// then the footer.
pub open spec fn assembled(s: ConfigSections, footer: Seq<char>) -> Seq<char> {
    section_line(s.header) + section_line(s.global_config) + section_line(s.interfaces)
        + section_line(s.routing_protocols) + section_line(s.access_lists) + footer
}

/// Appends a rendered section and a line break.
fn push_section(out: &mut String, s: &Option<String>)
    ensures
        final(out)@ == old(out)@ + section_line(*s),
{
    match s {
        Some(t) => {
            push_str(out, t.as_str());
            push_str(out, "\n");
        }
        None => {
            assert(old(out)@ + Seq::<char>::empty() =~= old(out)@);
        }
    }
}

/// Renders the footer and assembles the configuration.
#[derive(Debug)]
pub struct GenerateFooterStep;

impl GenerateFooterStep {
    /// The footer step.
    pub fn new() -> (s: Self) {
        GenerateFooterStep
    }

    /// For Cisco, renders the footer and assembles the final configuration
    /// from the rendered sections; other vendors are refused.
    pub fn execute(&self, context: &mut ConfigGenerationContext) -> (r: Result<(), ConfigGenerationError>)
        ensures
            is_cisco(old(context).vendor) ==> r.is_ok()
                && *final(context) == (ConfigGenerationContext {
                    config_sections: ConfigSections {
                        footer: final(context).config_sections.footer,
                        ..old(context).config_sections
                    },
                    final_config: final(context).final_config,
                    ..*old(context)
                })
                && opt_view(final(context).config_sections.footer) == Some(append_footer(Seq::empty()))
                && opt_view(final(context).final_config)
                    == Some(assembled(old(context).config_sections, append_footer(Seq::empty()))),
            !is_cisco(old(context).vendor) ==> *final(context) == *old(context)
                && unsupported(r, "Unsupported vendor for footer generation"@),
    {
        match context.vendor {
            RouterVendor::Cisco { .. } => {
                let generator = CiscoIosGenerator::new();
                let mut footer = String::new();
                generator.generate_footer(&mut footer);
                let mut config = String::new();
                push_section(&mut config, &context.config_sections.header);
                push_section(&mut config, &context.config_sections.global_config);
                push_section(&mut config, &context.config_sections.interfaces);
                push_section(&mut config, &context.config_sections.routing_protocols);
                push_section(&mut config, &context.config_sections.access_lists);
                push_str(&mut config, footer.as_str());
                assert(config@ =~= assembled(context.config_sections, append_footer(Seq::empty())));
                context.config_sections.footer = Some(footer);
                context.final_config = Some(config);
                Ok(())
            }
            _ => Err(ConfigGenerationError::Generation(owned("Unsupported vendor for footer generation"))),
        }
    }

    /// Forgets the footer and the assembled configuration.
    pub fn compensate(&self, context: &mut ConfigGenerationContext) -> (r: Result<(), ConfigGenerationError>)
        ensures
            r.is_ok(),
            *final(context) == (ConfigGenerationContext {
                config_sections: ConfigSections { footer: None, ..old(context).config_sections },
                final_config: None,
                ..*old(context)
            }),
    {
        context.config_sections.footer = None;
        context.final_config = None;
        Ok(())
    }
}

/// Whether a character is white space (the Unicode `White_Space`
/// property).
pub open spec fn is_white_space(c: char) -> bool {
    ('\u{9}' <= c && c <= '\u{d}') || c == ' ' || c == '\u{85}' || c == '\u{a0}' || c == '\u{1680}'
        || ('\u{2000}' <= c && c <= '\u{200a}') || c == '\u{2028}' || c == '\u{2029}' || c == '\u{202f}'
        || c == '\u{205f}' || c == '\u{3000}'
}

/// Whether a text is empty once white space is trimmed.
pub open spec fn blank(s: Seq<char>) -> bool {
    forall|i: int| 0 <= i < s.len() ==> is_white_space(#[trigger] s[i])
}

fn white_space(c: char) -> (r: bool)
    ensures
        r == is_white_space(c),
{
    ('\u{9}' <= c && c <= '\u{d}') || c == ' ' || c == '\u{85}' || c == '\u{a0}' || c == '\u{1680}'
        || ('\u{2000}' <= c && c <= '\u{200a}') || c == '\u{2028}' || c == '\u{2029}' || c == '\u{202f}'
        || c == '\u{205f}' || c == '\u{3000}'
}

fn is_blank(s: &str) -> (r: bool)
    ensures
        r == blank(s@),
{
    let v = crate::text::chars_of(s);
    let mut i: usize = 0;
    while i < v.len()
        invariant
            v@ == s@,
            i <= v@.len(),
            forall|j: int| 0 <= j < i ==> is_white_space(#[trigger] v@[j]),
        decreases v@.len() - i,
    {
        if !white_space(v[i]) {
            return false;
        }
        i = i + 1;
    }
    true
}

/// The findings of the final check: for Cisco, warnings for a missing
/// version or hostname and a note when interfaces are configured.
pub open spec fn findings(config: Seq<char>, vendor: RouterVendor) -> Seq<Seq<char>> {
    if is_cisco(vendor) {
        (if !contains_seq(config, "version"@) { seq!["Warning: No version information found"@] } else { Seq::empty() })
            + (if !contains_seq(config, "hostname"@) { seq!["Warning: No hostname configured"@] } else { Seq::empty() })
            + (if contains_seq(config, "interface"@) { seq!["Info: Interface configuration found"@] } else { Seq::empty() })
    } else {
        seq!["Info: Basic validation completed"@]
    }
}

/// Checks the assembled configuration.
#[derive(Debug)]
pub struct ValidateConfigurationStep;

impl ValidateConfigurationStep {
    /// The final check step.
    pub fn new() -> (s: Self) {
        ValidateConfigurationStep
    }

    /// Refuses a missing or blank configuration; otherwise records the
    /// findings.
    pub fn execute(&self, context: &mut ConfigGenerationContext) -> (r: Result<(), ConfigGenerationError>)
        ensures
            match old(context).final_config {
                None => *final(context) == *old(context) && match r {
                    Err(ConfigGenerationError::Validation(m)) => m@ == "No configuration available for validation"@,
                    _ => false,
                },
                Some(c) => if blank(c@) {
                    *final(context) == *old(context) && match r {
                        Err(ConfigGenerationError::Validation(m)) => m@ == "Generated configuration is empty"@,
                        _ => false,
                    }
                } else {
                    &&& r.is_ok()
                    &&& *final(context) == (ConfigGenerationContext {
                        validation_results: final(context).validation_results,
                        ..*old(context)
                    })
                    &&& final(context).validation_results@.map_values(|x: String| x@) == findings(c@, old(context).vendor)
                },
            },
    {
        match &context.final_config {
            Some(config) => {
                let c = config.as_str();
                if is_blank(c) {
                    return Err(ConfigGenerationError::Validation(owned("Generated configuration is empty")));
                }
                let mut results: Vec<String> = Vec::new();
                match context.vendor {
                    RouterVendor::Cisco { .. } => {
                        if !str_contains(c, "version") {
                            results.push(owned("Warning: No version information found"));
                        }
                        if !str_contains(c, "hostname") {
                            results.push(owned("Warning: No hostname configured"));
                        }
                        if str_contains(c, "interface") {
                            results.push(owned("Info: Interface configuration found"));
                        }
                    }
                    _ => {
                        results.push(owned("Info: Basic validation completed"));
                    }
                }
                assert(results@.map_values(|x: String| x@) =~= findings(c@, context.vendor));
                context.validation_results = results;
                Ok(())
            }
            None => Err(ConfigGenerationError::Validation(owned("No configuration available for validation"))),
        }
    }

    /// Forgets the findings.
    pub fn compensate(&self, context: &mut ConfigGenerationContext) -> (r: Result<(), ConfigGenerationError>)
        ensures
            r.is_ok(),
            *final(context) == (ConfigGenerationContext {
                validation_results: final(context).validation_results,
                ..*old(context)
            }),
            final(context).validation_results@.len() == 0,
    {
        context.validation_results.clear();
        Ok(())
    }
}

} // verus!
