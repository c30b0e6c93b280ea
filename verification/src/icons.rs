//! The icon names the manager shows, and the vendor logos it recognises.
use vstd::prelude::*;

use crate::text::{contains, contains_text, lowercase_text, to_lowercase};

verus! {

/// The icons of the interface, by role.
#[derive(Clone, Copy, Debug, PartialEq, Eq, Structural)]
pub enum GtkIcons {
    Add,
    Sidebar,
    Menu,
    ViewMore,
    Switch,
    Warning,
    GraphicsCard,
    SoundCard,
    GenericDevice,
    Multitasking,
    Identify,
    VendorAmd,
    VendorNvidia,
    VendorIntel,
}

/// The icon-theme name of each icon.
pub open spec fn icon_text(icon: GtkIcons) -> Seq<char> {
    match icon {
        GtkIcons::Add => "list-add-symbolic"@,
        GtkIcons::Sidebar => "sidebar-show-symbolic"@,
        GtkIcons::Menu => "application-menu-symbolic"@,
        GtkIcons::ViewMore => "view-more-symbolic"@,
        GtkIcons::Switch => "system-switch-user-symbolic"@,
        GtkIcons::Warning => "dialog-warning-symbolic"@,
        GtkIcons::GraphicsCard => "freon-gpu-temperature-symbolic"@,
        GtkIcons::SoundCard => "audio-card-symbolic"@,
        GtkIcons::GenericDevice => "device-notifier-symbolic"@,
        GtkIcons::Multitasking => "org.gnome.Settings-multitasking-symbolic"@,
        GtkIcons::Identify => "input-keyboard-symbolic"@,
        GtkIcons::VendorAmd => "amd"@,
        GtkIcons::VendorNvidia => "nvidia"@,
        GtkIcons::VendorIntel => "intel"@,
    }
}

/// The vendor logo for a lower-cased vendor name: AMD is checked first, then
/// NVIDIA, then Intel.
pub open spec fn vendor_icon_of(lower: Seq<char>) -> Option<GtkIcons> {
    if contains_text(lower, "amd"@) || contains_text(lower, "advanced micro"@) {
        Some(GtkIcons::VendorAmd)
    } else if contains_text(lower, "nvidia"@) {
        Some(GtkIcons::VendorNvidia)
    } else if contains_text(lower, "intel"@) {
        Some(GtkIcons::VendorIntel)
    } else {
        None
    }
}

impl GtkIcons {
    /// The icon-theme name of this icon.
    pub fn as_str(&self) -> (r: &'static str)
        ensures
            r@ == icon_text(*self),
    {
        match self {
            GtkIcons::Add => "list-add-symbolic",
            GtkIcons::Sidebar => "sidebar-show-symbolic",
            GtkIcons::Menu => "application-menu-symbolic",
            GtkIcons::ViewMore => "view-more-symbolic",
            GtkIcons::Switch => "system-switch-user-symbolic",
            GtkIcons::Warning => "dialog-warning-symbolic",
            GtkIcons::GraphicsCard => "freon-gpu-temperature-symbolic",
            GtkIcons::SoundCard => "audio-card-symbolic",
            GtkIcons::GenericDevice => "device-notifier-symbolic",
            GtkIcons::Multitasking => "org.gnome.Settings-multitasking-symbolic",
            GtkIcons::Identify => "input-keyboard-symbolic",
            GtkIcons::VendorAmd => "amd",
            GtkIcons::VendorNvidia => "nvidia",
            GtkIcons::VendorIntel => "intel",
        }
    }
}

/// The vendor logo for a vendor name that is already lower-cased.
pub fn vendor_icon_for_lowercase(lower: &str) -> (r: Option<&'static str>)
    ensures
        r is Some <==> vendor_icon_of(lower@) is Some,
        r matches Some(s) ==> s@ == icon_text(vendor_icon_of(lower@)->0),
{
    if contains(lower, "amd") || contains(lower, "advanced micro") {
        Some(GtkIcons::VendorAmd.as_str())
    } else if contains(lower, "nvidia") {
        Some(GtkIcons::VendorNvidia.as_str())
    } else if contains(lower, "intel") {
        Some(GtkIcons::VendorIntel.as_str())
    } else {
        None
    }
}

/// The vendor logo for a vendor name, matched without regard to case.
pub fn get_vendor_icon(vendor: &str) -> (r: Option<&'static str>)
    ensures
        r is Some <==> vendor_icon_of(lowercase_text(vendor@)) is Some,
        r matches Some(s) ==> s@ == icon_text(vendor_icon_of(lowercase_text(vendor@))->0),
{
    let vendor_lower = to_lowercase(vendor);
    vendor_icon_for_lowercase(vendor_lower.as_str())
}

} // verus!
