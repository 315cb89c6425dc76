use vstd::prelude::*;

use vstd::bytes::spec_u32_to_le_bytes;
use vstd::bytes::u32_to_le_bytes;

verus! {

#[verifier::external_type_specification]
#[verifier::external_body]
/// Declares naga's WGSL parse error for use in signatures.
pub struct ExParseError(naga::front::wgsl::ParseError);

#[verifier::external_type_specification]
#[verifier::external_body]
/// Declares naga's validation error for use in signatures.
pub struct ExValidationError(naga::valid::ValidationError);

#[verifier::external_type_specification]
#[verifier::external_body]
#[verifier::reject_recursive_types(E)]
/// Declares naga's span-carrying error wrapper for use in signatures.
pub struct ExWithSpan<E>(naga::WithSpan<E>);

#[verifier::external_type_specification]
#[verifier::external_body]
/// Declares naga's SPIR-V backend error for use in signatures.
pub struct ExSpvError(naga::back::spv::Error);

/// Why a WGSL-to-SPIR-V translation failed, keeping the translation
/// crate's error for the stage that failed.
pub enum TranslateError {
    /// The parsed module did not validate.
    Validate(naga::WithSpan<naga::valid::ValidationError>),
    /// The source did not parse as WGSL.
    Frontend(naga::front::wgsl::ParseError),
    /// The SPIR-V writer rejected the module.
    Backend(naga::back::spv::Error),
}

/// Relies on naga's WGSL frontend, validator and SPIR-V backend:
/// Frontend::parse turns the source into a module, Validator::validate
/// checks it with all flags and capabilities enabled, and Writer::write
/// emits SPIR-V words for a compute entry point named main. The first
/// stage that rejects the source decides the error variant.
#[verifier::external_body]
fn translate_wgsl(src: &str) -> Result<Vec<u32>, TranslateError> {
    let module = naga::front::wgsl::Frontend::new().parse(src).map_err(TranslateError::Frontend)?;
    let info = naga::valid::Validator::new(
        naga::valid::ValidationFlags::all(),
        naga::valid::Capabilities::all(),
    ).validate(&module).map_err(TranslateError::Validate)?;
    let mut words: Vec<u32> = Vec::new();
    let mut writer = naga::back::spv::Writer::new(&naga::back::spv::Options::default())
        .map_err(TranslateError::Backend)?;
    let pipeline = naga::back::spv::PipelineOptions {
        shader_stage: naga::ShaderStage::Compute,
        entry_point: "main".into(),
    };
    writer.write(&module, &info, Some(&pipeline), &Option::None, &mut words)
        .map_err(TranslateError::Backend)?;
    Ok(words)
}

/// The little-endian byte image of a word sequence.
pub open spec fn le_bytes_of_words(words: Seq<u32>) -> Seq<u8> {
    Seq::new(words.len() * 4, |i: int| spec_u32_to_le_bytes(words[i / 4])[i % 4])
}

/// A compiled SPIR-V module: the words the backend writer produced. What
/// the words mean is the translation crate's business, out of scope here;
/// this library only carries them and converts them to bytes exactly.
pub struct Spirv {
    words: Vec<u32>,
}

impl Spirv {
    /// The words, as contracts see them.
    pub closed spec fn words_spec(self) -> Seq<u32> {
        self.words@
    }

    /// Translates WGSL source to a SPIR-V module: parse, validate, and
    /// write, failing with the first stage that rejects it.
    pub fn from_wgsl(src: &str) -> Result<Spirv, TranslateError> {
        let words = translate_wgsl(src)?;
        Ok(Spirv { words })
    }

    /// The words of the module.
    pub fn words(&self) -> (r: &Vec<u32>)
        ensures
            r@ == self.words_spec(),
    {
        &self.words
    }

    /// The module as its little-endian byte image: four bytes per word, in
    /// word order.
    pub fn as_byte_slice(&self) -> (r: Vec<u8>)
        ensures
            r@ == le_bytes_of_words(self.words_spec()),
    {
        let mut out: Vec<u8> = Vec::new();
        let mut i: usize = 0;
        proof {
            assert(out@ =~= le_bytes_of_words(self.words@.subrange(0, 0)));
        }
        while i < self.words.len()
            invariant
                i <= self.words@.len(),
                out@ == le_bytes_of_words(self.words@.subrange(0, i as int)),
            decreases self.words@.len() - i,
        {
            let mut bytes = u32_to_le_bytes(self.words[i]);
            out.append(&mut bytes);
            i = i + 1;
            proof {
                let prefix = self.words@.subrange(0, i as int);
                assert forall|j: int| 0 <= j < i * 4 implies out@[j] == le_bytes_of_words(
                    prefix,
                )[j] by {
                    if j < (i - 1) * 4 {
                        assert(prefix.subrange(0, i - 1) =~= self.words@.subrange(0, i - 1));
                        assert(prefix[j / 4] == self.words@.subrange(0, i - 1)[j / 4]);
                    } else {
                        assert(j / 4 == i - 1) by (nonlinear_arith)
                            requires
                                (i - 1) * 4 <= j < i * 4,
                        ;
                        assert(out@[j] == spec_u32_to_le_bytes(self.words@[i - 1])[j - (i - 1)
                            * 4]);
                        assert(j % 4 == j - (i - 1) * 4) by (nonlinear_arith)
                            requires
                                (i - 1) * 4 <= j < i * 4,
                        ;
                    }
                }
                assert(out@ =~= le_bytes_of_words(prefix));
            }
        }
        proof {
            assert(self.words@.subrange(0, self.words@.len() as int) =~= self.words@);
        }
        out
    }
}

} // verus!
