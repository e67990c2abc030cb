//! Conformance levels of a PDF document and the features each one allows.
//!
//! [PDF/X Versions](https://en.wikipedia.org/wiki/PDF/X)
//!
//! [PDF/A Versions](https://en.wikipedia.org/wiki/PDF/A)
use vstd::prelude::*;

verus! {

/// Features that a conformance level may allow or require.
#[derive(Debug, PartialEq, Eq, Clone, Copy, Structural)]
pub enum PdfConformanceFeatures {
    Content3D,
    ContentVideo,
    ContentAudio,
    ContentJavascript,
    ContentJpeg,
    RequiresXMPMetadata,
    AllowsDefaultFonts,
    RequiresICCProfile,
    AllowsPDFLayers,
}

/// A user defined conformance: an optional identifier and the allowed features.
#[derive(Debug, PartialEq, Eq, Clone)]
pub struct CustomPdfConformance {
    /// Identifier for this conformance
    pub identifier: Option<String>,
    pub features: Vec<PdfConformanceFeatures>,
}

/// The conformance level of a document.
#[allow(non_camel_case_types)]
#[derive(Debug, PartialEq, Eq, Clone)]
pub enum PdfConformance {
    A1B_2005_PDF_1_4,
    Custom(CustomPdfConformance),
}

/// The features that PDF/A-1b:2005 allows: none of the listed ones.
pub open spec fn a1b_2005_features() -> Seq<PdfConformanceFeatures> {
    Seq::empty()
}

/// The features of the default custom conformance: JPEG content and layers.
pub open spec fn default_custom_features() -> Seq<PdfConformanceFeatures> {
    seq![PdfConformanceFeatures::ContentJpeg, PdfConformanceFeatures::AllowsPDFLayers]
}

impl CustomPdfConformance {
    /// The default custom conformance: no identifier, JPEG content and layers allowed.
    pub fn default_conformance() -> (r: Self)
        ensures
            r.identifier is None,
            r.features@ == default_custom_features(),
    {
        let mut features = Vec::new();
        features.push(PdfConformanceFeatures::ContentJpeg);
        features.push(PdfConformanceFeatures::AllowsPDFLayers);
        CustomPdfConformance { identifier: None, features }
    }
}

impl Default for CustomPdfConformance {
    fn default() -> (r: Self)
        ensures
            r.identifier is None,
            r.features@ == default_custom_features(),
    {
        Self::default_conformance()
    }
}

impl Default for PdfConformance {
    /// The default conformance is the default custom one, which saves on file size.
    fn default() -> (r: Self)
        ensures
            r matches PdfConformance::Custom(c) && c.identifier is None && c.features@
                == default_custom_features(),
    {
        PdfConformance::Custom(CustomPdfConformance::default_conformance())
    }
}

impl PdfConformance {
    /// The feature list of this conformance.
    pub open spec fn feature_list(&self) -> Seq<PdfConformanceFeatures> {
        match self {
            PdfConformance::A1B_2005_PDF_1_4 => a1b_2005_features(),
            PdfConformance::Custom(c) => c.features@,
        }
    }

    /// The identifier string of this conformance.
    pub open spec fn identifier_spec(&self) -> Seq<char> {
        match self {
            PdfConformance::A1B_2005_PDF_1_4 => "PDF/A-1b:2005"@,
            PdfConformance::Custom(c) => match c.identifier {
                Some(s) => s@,
                None => Seq::empty(),
            },
        }
    }

    /// Get the identifier string for PDF
    pub fn get_identifier_string(&self) -> (r: &str)
        ensures
            r@ == self.identifier_spec(),
    {
        match self {
            PdfConformance::A1B_2005_PDF_1_4 => "PDF/A-1b:2005",
            PdfConformance::Custom(c) => match &c.identifier {
                Some(s) => s.as_str(),
                None => {
                    proof {
                        reveal_strlit("");
                    }
                    ""
                },
            },
        }
    }

    /// Check if a feature is allowed in this conformance
    pub fn has_feature(&self, feature: PdfConformanceFeatures) -> (r: bool)
        ensures
            r == self.feature_list().contains(feature),
    {
        match self {
            PdfConformance::Custom(c) => {
                let mut i: usize = 0;
                while i < c.features.len()
                    invariant
                        i <= c.features.len(),
                        self.feature_list() == c.features@,
                        forall|j: int| 0 <= j < i ==> c.features@[j] != feature,
                    decreases c.features.len() - i,
                {
                    if c.features[i] == feature {
                        assert(c.features@[i as int] == feature);
                        return true;
                    }
                    i = i + 1;
                }
                false
            },
            PdfConformance::A1B_2005_PDF_1_4 => false,
        }
    }
}

} // verus!
