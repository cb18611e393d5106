//! The mutable rendering-options object.
//!
//! It owns a resource base directory, a font catalog and three quality
//! modes. Font loading is deliberately best-effort: a missing or invalid
//! font file leaves the catalog unchanged and raises nothing, since font
//! availability varies across hosts and a hard failure here would make
//! the library unusable on minimal systems. Quality setters silently
//! ignore out-of-range codes, so newer hosts stay compatible.

use vstd::prelude::*;

use crate::engine;
use crate::modes::{
    image_mode_of, shape_mode_of, text_mode_of, ImageMode, ShapeMode, TextMode,
    decode_image_mode, decode_shape_mode, decode_text_mode,
};
use resvg::usvg::fontdb;

verus! {

/// The configuration an individual render call works from.
pub struct RenderOptions {
    /// Base directory for resolving relative references in documents.
    pub resources_dir: String,
    /// The font catalog used for text resolution.
    pub fontdb: fontdb::Database,
    /// Default shape-rendering quality.
    pub shape_rendering: ShapeMode,
    /// Default text-rendering quality.
    pub text_rendering: TextMode,
    /// Default image-rendering quality.
    pub image_rendering: ImageMode,
}

/// What an options object becomes when the shape-rendering setter is
/// given a host code: the selected mode, or unchanged for a code outside
/// the closed set.
pub open spec fn shape_applied(o: RenderOptions, code: i32) -> RenderOptions {
    match shape_mode_of(code) {
        Some(m) => (RenderOptions { shape_rendering: m, ..o }),
        None => o,
    }
}

/// What an options object becomes when the text-rendering setter is
/// given a host code: the selected mode, or unchanged for a code outside
/// the closed set.
pub open spec fn text_applied(o: RenderOptions, code: i32) -> RenderOptions {
    match text_mode_of(code) {
        Some(m) => (RenderOptions { text_rendering: m, ..o }),
        None => o,
    }
}

/// What an options object becomes when the image-rendering setter is
/// given a host code: the selected mode, or unchanged for a code outside
/// the closed set.
pub open spec fn image_applied(o: RenderOptions, code: i32) -> RenderOptions {
    match image_mode_of(code) {
        Some(m) => (RenderOptions { image_rendering: m, ..o }),
        None => o,
    }
}

/// A freshly created options object: the directory stored verbatim, an
/// empty font catalog, and the default quality modes.
pub open spec fn is_fresh_options(o: RenderOptions, resources_dir: Seq<char>) -> bool {
    &&& o.resources_dir@ == resources_dir
    &&& engine::db_len(o.fontdb) == 0
    &&& o.shape_rendering == ShapeMode::GeometricPrecision
    &&& o.text_rendering == TextMode::OptimizeLegibility
    &&& o.image_rendering == ImageMode::OptimizeQuality
}

/// The two options hold the same directory and quality modes; only the
/// font catalog may differ.
pub open spec fn same_but_fonts(a: RenderOptions, b: RenderOptions) -> bool {
    a.resources_dir == b.resources_dir && a.shape_rendering == b.shape_rendering
        && a.text_rendering == b.text_rendering && a.image_rendering == b.image_rendering
}

impl RenderOptions {
    /// A fresh options object: the directory stored verbatim (existence is
    /// checked only at render time), an empty font catalog, and the
    /// default quality modes.
    pub fn new(resources_dir: String) -> (r: Self)
        ensures
            r.resources_dir == resources_dir,
            engine::db_len(r.fontdb) == 0,
            r.shape_rendering == ShapeMode::GeometricPrecision,
            r.text_rendering == TextMode::OptimizeLegibility,
            r.image_rendering == ImageMode::OptimizeQuality,
    {
        RenderOptions {
            resources_dir,
            fontdb: engine::db_new(),
            shape_rendering: ShapeMode::GeometricPrecision,
            text_rendering: TextMode::OptimizeLegibility,
            image_rendering: ImageMode::OptimizeQuality,
        }
    }

    /// Best-effort load of the operating system's fonts into the catalog.
    /// Partial or total failure never fails the call; the catalog only
    /// ever grows.
    pub fn load_system_fonts(&mut self)
        ensures
            same_but_fonts(*old(self), *final(self)),
            engine::db_len(final(self).fontdb) >= engine::db_len(old(self).fontdb),
    {
        engine::db_load_system_fonts(&mut self.fontdb);
    }

    /// Loads one font file into the catalog. If the file is missing or
    /// cannot be read, the catalog is left exactly unchanged and nothing
    /// is raised: the returned flag is the only report, and callers probe
    /// availability through later render results.
    pub fn try_load_font(&mut self, path: &str) -> (loaded: bool)
        ensures
            same_but_fonts(*old(self), *final(self)),
            !loaded ==> final(self).fontdb == old(self).fontdb,
            engine::db_len(final(self).fontdb) >= engine::db_len(old(self).fontdb),
    {
        engine::db_load_font_file(&mut self.fontdb, path)
    }

    /// Loads every valid font file found under the directory, scanning
    /// recursively; invalid files are skipped, failure raises nothing,
    /// and the catalog only ever grows.
    pub fn load_fonts_dir(&mut self, path: &str)
        ensures
            same_but_fonts(*old(self), *final(self)),
            engine::db_len(final(self).fontdb) >= engine::db_len(old(self).fontdb),
    {
        engine::db_load_fonts_dir(&mut self.fontdb, path);
    }

    /// The number of font faces the catalog currently holds.
    pub fn font_count(&self) -> (n: usize)
        ensures
            n as nat == engine::db_len(self.fontdb),
    {
        engine::db_face_count(&self.fontdb)
    }

    /// An independent snapshot of this configuration: a render call works
    /// from the snapshot, so later configuration changes cannot touch an
    /// in-flight render.
    pub fn get_options(&self) -> (r: RenderOptions)
        ensures
            r.resources_dir@ == self.resources_dir@,
            r.fontdb == self.fontdb,
            r.shape_rendering == self.shape_rendering,
            r.text_rendering == self.text_rendering,
            r.image_rendering == self.image_rendering,
    {
        RenderOptions {
            resources_dir: self.resources_dir.clone(),
            fontdb: engine::db_clone(&self.fontdb),
            shape_rendering: self.shape_rendering,
            text_rendering: self.text_rendering,
            image_rendering: self.image_rendering,
        }
    }

    /// Sets the shape-rendering mode from a host code. A code outside the
    /// closed set leaves the previous mode unchanged and raises nothing.
    pub fn set_shape_rendering(&mut self, code: i32)
        ensures
            shape_mode_of(code) matches Some(m) ==> *final(self) == (RenderOptions {
                shape_rendering: m,
                ..*old(self)
            }),
            shape_mode_of(code) is None ==> *final(self) == *old(self),
    {
        match decode_shape_mode(code) {
            Some(m) => {
                self.shape_rendering = m;
            },
            None => {},
        }
    }

    /// Sets the text-rendering mode from a host code. A code outside the
    /// closed set leaves the previous mode unchanged and raises nothing.
    pub fn set_text_rendering(&mut self, code: i32)
        ensures
            text_mode_of(code) matches Some(m) ==> *final(self) == (RenderOptions {
                text_rendering: m,
                ..*old(self)
            }),
            text_mode_of(code) is None ==> *final(self) == *old(self),
    {
        match decode_text_mode(code) {
            Some(m) => {
                self.text_rendering = m;
            },
            None => {},
        }
    }

    /// Sets the image-rendering mode from a host code. A code outside the
    /// closed set leaves the previous mode unchanged and raises nothing.
    pub fn set_image_rendering(&mut self, code: i32)
        ensures
            image_mode_of(code) matches Some(m) ==> *final(self) == (RenderOptions {
                image_rendering: m,
                ..*old(self)
            }),
            image_mode_of(code) is None ==> *final(self) == *old(self),
    {
        match decode_image_mode(code) {
            Some(m) => {
                self.image_rendering = m;
            },
            None => {},
        }
    }
}

} // verus!
