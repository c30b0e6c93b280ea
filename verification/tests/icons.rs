use multiseat::icons::{get_vendor_icon, vendor_icon_for_lowercase, GtkIcons};
use multiseat::utils::DeviceVariant;

#[test]
fn icon_names() {
    assert_eq!(GtkIcons::Add.as_str(), "list-add-symbolic");
    assert_eq!(GtkIcons::Sidebar.as_str(), "sidebar-show-symbolic");
    assert_eq!(GtkIcons::Menu.as_str(), "application-menu-symbolic");
    assert_eq!(GtkIcons::ViewMore.as_str(), "view-more-symbolic");
    assert_eq!(GtkIcons::Switch.as_str(), "system-switch-user-symbolic");
    assert_eq!(GtkIcons::Warning.as_str(), "dialog-warning-symbolic");
    assert_eq!(GtkIcons::GraphicsCard.as_str(), "freon-gpu-temperature-symbolic");
    assert_eq!(GtkIcons::SoundCard.as_str(), "audio-card-symbolic");
    assert_eq!(GtkIcons::GenericDevice.as_str(), "device-notifier-symbolic");
    assert_eq!(GtkIcons::Multitasking.as_str(), "org.gnome.Settings-multitasking-symbolic");
    assert_eq!(GtkIcons::Identify.as_str(), "input-keyboard-symbolic");
    assert_eq!(GtkIcons::VendorAmd.as_str(), "amd");
    assert_eq!(GtkIcons::VendorNvidia.as_str(), "nvidia");
    assert_eq!(GtkIcons::VendorIntel.as_str(), "intel");
}

#[test]
fn device_variant_icons() {
    assert_eq!(DeviceVariant::GraphicsCard.icon_name(), "freon-gpu-temperature-symbolic");
    assert_eq!(DeviceVariant::SoundCard.icon_name(), "audio-card-symbolic");
    assert_eq!(DeviceVariant::GenericDevice.icon_name(), "device-notifier-symbolic");
}

#[test]
fn vendor_icons_ignore_case() {
    assert_eq!(get_vendor_icon("Advanced Micro Devices, Inc. [AMD/ATI]"), Some("amd"));
    assert_eq!(get_vendor_icon("NVIDIA Corporation"), Some("nvidia"));
    assert_eq!(get_vendor_icon("Intel Corporation"), Some("intel"));
    assert_eq!(get_vendor_icon("ADVANCED MICRO devices"), Some("amd"));
    assert_eq!(get_vendor_icon("Realtek Semiconductor"), None);
    assert_eq!(get_vendor_icon(""), None);
}

#[test]
fn vendor_icon_order_is_amd_nvidia_intel() {
    assert_eq!(get_vendor_icon("NVIDIA and AMD"), Some("amd"));
    assert_eq!(get_vendor_icon("Intel with NVIDIA"), Some("nvidia"));
    assert_eq!(vendor_icon_for_lowercase("intel"), Some("intel"));
    // Already lower-cased input only: upper case is not matched here.
    assert_eq!(vendor_icon_for_lowercase("INTEL"), None);
}

#[test]
fn device_list_icon_keys() {
    assert_eq!(DeviceVariant::GraphicsCard.item_icon(), "gpu");
    assert_eq!(DeviceVariant::SoundCard.item_icon(), "sound");
    assert_eq!(DeviceVariant::GenericDevice.item_icon(), "generic");
}
