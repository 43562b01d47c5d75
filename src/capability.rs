use vstd::prelude::*;

use crate::format::{format_of_tag, PixelFormat, Resolution};

verus! {

/// One pixel format with the resolutions a device reports for it, in the
/// device's order.
#[derive(Debug, Clone)]
pub struct FormatCapability {
    pub format: PixelFormat,
    pub resolutions: Vec<Resolution>,
}

impl View for FormatCapability {
    type V = (PixelFormat, Seq<Resolution>);

    open spec fn view(&self) -> (PixelFormat, Seq<Resolution>) {
        (self.format, self.resolutions@)
    }
}

/// Everything one discovery found a device able to do.
#[derive(Debug, Clone)]
pub struct CameraCapabilities {
    pub formats: Vec<FormatCapability>,
}

/// The capability model: each format in report order, with its resolutions.
pub type CapabilityModel = Seq<(PixelFormat, Seq<Resolution>)>;

pub open spec fn capability_model(formats: Seq<FormatCapability>) -> CapabilityModel {
    formats.map_values(|f: FormatCapability| f@)
}

impl View for CameraCapabilities {
    type V = CapabilityModel;

    open spec fn view(&self) -> CapabilityModel {
        capability_model(self.formats@)
    }
}

/// One format entry as the driver reports it: the wire tag, and the discrete
/// resolutions for it, or `None` where the resolution query failed. A query
/// that answers in another shape than a discrete list is an empty list.
pub struct RawFormat {
    pub fourcc: [u8; 4],
    pub resolutions: Option<Vec<Resolution>>,
}

/// The capabilities that a driver report yields: entries that failed, and
/// formats whose resolution query failed, are left out; the rest keep their
/// order.
pub open spec fn usable_formats(report: Seq<Option<RawFormat>>) -> CapabilityModel
    decreases report.len(),
{
    if report.len() == 0 {
        Seq::empty()
    } else {
        let rest = usable_formats(report.drop_last());
        match report.last() {
            Some(raw) => match raw.resolutions {
                Some(res) => rest.push((format_of_tag(raw.fourcc@), res@)),
                None => rest,
            },
            None => rest,
        }
    }
}

/// The format is listed somewhere in the capabilities.
pub open spec fn format_listed(caps: CapabilityModel, f: PixelFormat) -> bool {
    exists|i: int| 0 <= i < caps.len() && (#[trigger] caps[i]).0 == f
}

/// Some entry for format `f` lists the resolution `w` x `h`. A format may
/// have several entries (unknown tags all decode to the default format), and
/// any of them counts; a resolution listed only under another format does
/// not.
pub open spec fn resolution_listed(caps: CapabilityModel, f: PixelFormat, w: u32, h: u32) -> bool {
    exists|i: int|
        0 <= i < caps.len() && (#[trigger] caps[i]).0 == f && caps[i].1.contains(
            Resolution { width: w, height: h },
        )
}

/// A copy of a resolution list, in the same order.
pub fn copy_resolutions(v: &Vec<Resolution>) -> (r: Vec<Resolution>)
    ensures
        r@ == v@,
{
    let mut r: Vec<Resolution> = Vec::new();
    let mut i: usize = 0;
    while i < v.len()
        invariant
            i <= v.len(),
            r@ == v@.subrange(0, i as int),
        decreases v.len() - i,
    {
        r.push(v[i]);
        i += 1;
        assert(r@ =~= v@.subrange(0, i as int));
    }
    assert(v@.subrange(0, v.len() as int) =~= v@);
    r
}

impl CameraCapabilities {
    /// A copy with the same formats and resolutions.
    pub fn copy(&self) -> (r: CameraCapabilities)
        ensures
            r@ == self@,
    {
        let mut formats: Vec<FormatCapability> = Vec::new();
        let mut i: usize = 0;
        while i < self.formats.len()
            invariant
                i <= self.formats.len(),
                capability_model(formats@) == capability_model(self.formats@.subrange(0, i as int)),
            decreases self.formats.len() - i,
        {
            let ghost before = formats@;
            let entry = &self.formats[i];
            formats.push(
                FormatCapability { format: entry.format, resolutions: copy_resolutions(&entry.resolutions) },
            );
            assert(capability_model(formats@) =~= capability_model(before).push(entry@));
            assert(self.formats@.subrange(0, i as int + 1) =~= self.formats@.subrange(
                0,
                i as int,
            ).push(*entry));
            assert(capability_model(self.formats@.subrange(0, i as int + 1)) =~= capability_model(
                self.formats@.subrange(0, i as int),
            ).push(entry@));
            i += 1;
        }
        assert(self.formats@.subrange(0, self.formats.len() as int) =~= self.formats@);
        CameraCapabilities { formats }
    }

    /// Builds the capabilities from a driver report: failed entries and
    /// formats whose resolutions could not be listed are dropped, and each
    /// kept tag is decoded to its pixel format.
    pub fn from_report(report: &Vec<Option<RawFormat>>) -> (r: CameraCapabilities)
        ensures
            r@ == usable_formats(report@),
    {
        let mut formats: Vec<FormatCapability> = Vec::new();
        let mut i: usize = 0;
        while i < report.len()
            invariant
                i <= report.len(),
                capability_model(formats@) == usable_formats(report@.subrange(0, i as int)),
            decreases report.len() - i,
        {
            let ghost before = formats@;
            assert(report@.subrange(0, i as int + 1).drop_last() =~= report@.subrange(0, i as int));
            match &report[i] {
                Some(raw) => match &raw.resolutions {
                    Some(res) => {
                        formats.push(
                            FormatCapability {
                                format: PixelFormat::from_fourcc(&raw.fourcc),
                                resolutions: copy_resolutions(res),
                            },
                        );
                        assert(capability_model(formats@) =~= capability_model(before).push(
                            formats@.last()@,
                        ));
                    },
                    None => {},
                },
                None => {},
            }
            i += 1;
        }
        assert(report@.subrange(0, report.len() as int) =~= report@);
        CameraCapabilities { formats }
    }

    /// Whether some entry is for `format`.
    pub fn lists_format(&self, format: PixelFormat) -> (r: bool)
        ensures
            r == format_listed(self@, format),
    {
        let mut i: usize = 0;
        while i < self.formats.len()
            invariant
                i <= self.formats.len(),
                forall|j: int| 0 <= j < i ==> (#[trigger] self@[j]).0 != format,
            decreases self.formats.len() - i,
        {
            if self.formats[i].format == format {
                assert(self@[i as int].0 == format);
                return true;
            }
            i += 1;
        }
        false
    }

    /// Whether some entry for `format` lists `width` x `height`; every
    /// entry of the format is looked at.
    pub fn lists_resolution(&self, format: PixelFormat, width: u32, height: u32) -> (r: bool)
        ensures
            r == resolution_listed(self@, format, width, height),
    {
        let mut i: usize = 0;
        while i < self.formats.len()
            invariant
                i <= self.formats.len(),
                forall|j: int|
                    0 <= j < i ==> !((#[trigger] self@[j]).0 == format && self@[j].1.contains(
                        Resolution { width, height },
                    )),
            decreases self.formats.len() - i,
        {
            let entry = &self.formats[i];
            if entry.format == format && entry.lists(width, height) {
                assert(self@[i as int].0 == format);
                assert(self@[i as int].1.contains(Resolution { width, height }));
                return true;
            }
            assert(self@[i as int] == entry@);
            i += 1;
        }
        false
    }
}

impl FormatCapability {
    /// Whether `width` x `height` is among this format's resolutions.
    pub fn lists(&self, width: u32, height: u32) -> (r: bool)
        ensures
            r == self.resolutions@.contains(Resolution { width, height }),
    {
        let mut i: usize = 0;
        while i < self.resolutions.len()
            invariant
                i <= self.resolutions.len(),
                forall|j: int|
                    0 <= j < i ==> #[trigger] self.resolutions@[j] != (Resolution { width, height }),
            decreases self.resolutions.len() - i,
        {
            let res = self.resolutions[i];
            if res.width == width && res.height == height {
                assert(self.resolutions@[i as int] == Resolution { width, height });
                return true;
            }
            i += 1;
        }
        false
    }
}

} // verus!
