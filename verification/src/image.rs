//! Source-image metadata: classification of disk-image kinds by file
//! extension.

use vstd::prelude::*;

verus! {

/// Metadata of a source image file.
#[derive(Debug, Clone)]
pub struct ImageInfo {
    pub path: String,
    pub name: String,
    pub size: u64,
    pub image_type: String,
    pub extension: String,
}

/// The human-readable image kind for a lowercase file extension.
pub open spec fn spec_image_type(ext: Seq<char>) -> Seq<char> {
    if ext == "iso"@ {
        "ISO 9660"@
    } else if ext == "img"@ || ext == "raw"@ {
        "Raw Disk Image"@
    } else if ext == "dmg"@ {
        "Apple Disk Image"@
    } else if ext == "vhd"@ || ext == "vhdx"@ {
        "Virtual Hard Disk"@
    } else if ext == "vmdk"@ {
        "VMware Disk"@
    } else if ext == "qcow2"@ {
        "QEMU Copy-on-Write"@
    } else {
        "Unknown"@
    }
}

/// Classify a lowercase file extension.
pub fn image_type_for_extension(extension: &String) -> (r: &'static str)
    ensures
        r@ == spec_image_type(extension@),
{
    if *extension == String::from_str("iso") {
        "ISO 9660"
    } else if *extension == String::from_str("img") || *extension == String::from_str("raw") {
        "Raw Disk Image"
    } else if *extension == String::from_str("dmg") {
        "Apple Disk Image"
    } else if *extension == String::from_str("vhd") || *extension == String::from_str("vhdx") {
        "Virtual Hard Disk"
    } else if *extension == String::from_str("vmdk") {
        "VMware Disk"
    } else if *extension == String::from_str("qcow2") {
        "QEMU Copy-on-Write"
    } else {
        "Unknown"
    }
}

/// Assemble the metadata record for a source image; `extension` is the file
/// extension already folded to lowercase.
pub fn make_image_info(path: &str, name: &str, size: u64, extension: &String) -> (r: ImageInfo)
    ensures
        r.path@ == path@,
        r.name@ == name@,
        r.size == size,
        r.image_type@ == spec_image_type(extension@),
        r.extension@ == extension@,
{
    ImageInfo {
        path: String::from_str(path),
        name: String::from_str(name),
        size,
        image_type: String::from_str(image_type_for_extension(extension)),
        extension: extension.clone(),
    }
}

} // verus!
