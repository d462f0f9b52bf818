//! Conversion between the variants of Chinese.
use crate::settings::AppSettings;
use crate::text;
use ferrous_opencc::config::BuiltinConfig;
use ferrous_opencc::error::OpenCCError;
use ferrous_opencc::OpenCC;
use vstd::prelude::*;

verus! {

/// The variants of Chinese that a transcription can be converted to.
#[derive(Clone, Copy, Debug, PartialEq, Eq, Structural)]
pub enum ChineseVariant {
    /// Simplified Chinese, from Traditional Chinese as it is written in Taiwan,
    /// with its phrases: the configuration `BuiltinConfig::Tw2sp`.
    Simplified,
    /// Traditional Chinese as it is written in Taiwan, with its phrases, from
    /// Simplified Chinese: the configuration `BuiltinConfig::S2twp`.
    Traditional,
}

/// A converter between variants of Chinese.
#[verifier::external_type_specification]
#[verifier::external_body]
pub struct ExOpenCC(ferrous_opencc::OpenCC);

/// Why a converter could not be set up.
#[verifier::external_type_specification]
#[verifier::external_body]
pub struct ExOpenCCError(ferrous_opencc::error::OpenCCError);

/// The variant that a converter leads to, if it was set up for one of them by
/// its built-in configuration.
pub uninterp spec fn target(converter: OpenCC) -> Option<ChineseVariant>;

/// What `OpenCC::convert` makes of a text, on the way to a variant.
pub uninterp spec fn converted(variant: ChineseVariant, text: Seq<char>) -> Seq<char>;

/// `OpenCC::from_config`: a converter for the built-in configuration that the
/// variant stands for, `Tw2sp` or `S2twp`. Whether it can be set up is left open: the
/// dictionaries are checked where they come to lie in memory.
#[verifier::external_body]
fn converter_to(variant: ChineseVariant) -> (converter: Result<OpenCC, OpenCCError>)
    ensures
        converter matches Ok(converter) ==> target(converter) == Some(variant),
{
    OpenCC::from_config(
        match variant {
            ChineseVariant::Simplified => BuiltinConfig::Tw2sp,
            ChineseVariant::Traditional => BuiltinConfig::S2twp,
        },
    )
}

/// `OpenCC::convert`: of a converter that was set up for a variant, the result
/// depends on that variant and on the text alone. Nothing is said of converters
/// of other configurations.
pub assume_specification[ ferrous_opencc::OpenCC::convert ](
    converter: &OpenCC,
    input: &str,
) -> (output: String)
    ensures
        target(*converter) matches Some(variant) ==> output@ == converted(variant, input@),
;

/// The variant that a language asks for.
pub open spec fn variant_of(language: Seq<char>) -> Option<ChineseVariant> {
    if language == "zh-Hans"@ {
        Some(ChineseVariant::Simplified)
    } else if language == "zh-Hant"@ {
        Some(ChineseVariant::Traditional)
    } else {
        None
    }
}

/// Finds the variant that a language asks for.
pub fn variant_for(language: &str) -> (variant: Option<ChineseVariant>)
    ensures
        variant == variant_of(language@),
{
    if text::same(language, "zh-Hans") {
        Some(ChineseVariant::Simplified)
    } else if text::same(language, "zh-Hant") {
        Some(ChineseVariant::Traditional)
    } else {
        None
    }
}

/// Converts a transcription with a converter, if that could be set up.
pub fn convert_with(converter: Result<OpenCC, OpenCCError>, transcription: &str) -> (text: Option<
    String,
>)
    ensures
        text is Some <==> converter is Ok,
        converter matches Ok(converter) ==> (target(converter) matches Some(variant) ==> (
        text matches Some(text) && text@ == converted(variant, transcription@))),
{
    match converter {
        Ok(converter) => Some(converter.convert(transcription)),
        Err(_) => None,
    }
}

/// Whether this can come of setting up a converter to a variant.
pub closed spec fn sets_up(
    variant: ChineseVariant,
    converter: Result<OpenCC, OpenCCError>,
) -> bool {
    call_ensures(converter_to, (variant,), converter)
}

/// What the conversion of a transcription can come to: nothing where no variant
/// of Chinese is selected, and else the text in that variant exactly where the
/// converter was set up.
pub open spec fn can_become(
    language: Seq<char>,
    transcription: Seq<char>,
    text: Option<Seq<char>>,
) -> bool {
    match variant_of(language) {
        Some(variant) => exists|converter: Result<OpenCC, OpenCCError>| #[trigger]
            sets_up(variant, converter) && text == match converter {
                Ok(_) => Some(converted(variant, transcription)),
                Err(_) => None,
            },
        None => text is None,
    }
}

/// Sets a converter up.
fn set_up<F: Fn(ChineseVariant) -> Result<OpenCC, OpenCCError>>(
    attempt: F,
    variant: ChineseVariant,
) -> (converter: Result<OpenCC, OpenCCError>)
    requires
        call_requires(attempt, (variant,)),
    ensures
        call_ensures(attempt, (variant,), converter),
{
    attempt(variant)
}

/// Converts a transcription to the variant of Chinese that is selected. Nothing
/// comes back where none is, or where the converter cannot be set up; the
/// transcription has no part in that.
pub fn maybe_convert_chinese_variant(settings: &AppSettings, transcription: &str) -> (text: Option<
    String,
>)
    ensures
        can_become(settings@.language, transcription@, text::opt_view(text)),
        match variant_of(settings@.language) {
            Some(variant) => exists|converter: Result<OpenCC, OpenCCError>| #[trigger]
                sets_up(variant, converter) && (text is Some <==> converter is Ok) && (
                text matches Some(text) ==> text@ == converted(variant, transcription@)),
            None => text is None,
        },
{
    match variant_for(settings.selected_language.as_str()) {
        Some(variant) => {
            let converter = set_up(converter_to, variant);
            let ghost tried = converter;
            let text = convert_with(converter, transcription);
            assert(sets_up(variant, tried));
            text
        },
        None => None,
    }
}

/// What can come of setting up a converter is what the call can give, and
/// nothing else.
proof fn set_up_is_what_the_call_gives(
    variant: ChineseVariant,
    converter: Result<OpenCC, OpenCCError>,
)
    ensures
        sets_up(variant, converter) <==> call_ensures(converter_to, (variant,), converter),
        sets_up(variant, converter) ==> (converter matches Ok(converter) ==> target(converter)
            == Some(variant)),
{
}

/// The languages that ask for a variant of Chinese, and which one.
pub proof fn two_languages_are_converted(language: Seq<char>)
    ensures
        variant_of(language) == Some(ChineseVariant::Simplified) <==> language == "zh-Hans"@,
        variant_of(language) == Some(ChineseVariant::Traditional) <==> language == "zh-Hant"@,
{
    reveal_strlit("zh-Hans");
    reveal_strlit("zh-Hant");
    assert("zh-Hans"@[6] == 's');
    assert("zh-Hant"@[6] == 't');
}

/// Whether a transcription is converted never depends on the transcription: what
/// keeps one from being converted keeps every other one from it, and where one is
/// converted, every other one is, each to its own text in the same variant.
pub proof fn conversion_depends_on_the_set_up_alone(
    language: Seq<char>,
    variant: ChineseVariant,
    one: Seq<char>,
    other: Seq<char>,
)
    requires
        (variant == ChineseVariant::Simplified && language == "zh-Hans"@) || (variant
            == ChineseVariant::Traditional && language == "zh-Hant"@),
    ensures
        can_become(language, one, None) <==> can_become(language, other, None),
        can_become(language, one, Some(converted(variant, one))) <==> can_become(
            language,
            other,
            Some(converted(variant, other)),
        ),
        can_become(language, one, None) <==> exists|e: OpenCCError| #[trigger] sets_up(variant, Err(e)),
        can_become(language, one, Some(converted(variant, one))) <==> exists|c: OpenCC| #[trigger]
            sets_up(variant, Ok(c)),
        forall|text: Seq<char>|
            can_become(language, one, Some(text)) ==> text == converted(variant, one),
{
    two_languages_are_converted(language);
    assert forall|t: Seq<char>| #[trigger] can_become(language, t, None) implies exists|
        e: OpenCCError,
    | #[trigger] sets_up(variant, Err(e)) by {
        let c = choose|converter: Result<OpenCC, OpenCCError>| #[trigger]
            sets_up(variant, converter) && None::<Seq<char>> == match converter {
                Ok(_) => Some(converted(variant, t)),
                Err(_) => None,
            };
        assert(sets_up(variant, Err(c->Err_0)));
    }
    assert forall|t: Seq<char>| #[trigger]
        can_become(language, t, Some(converted(variant, t))) implies exists|c: OpenCC| #[trigger]
        sets_up(variant, Ok(c)) by {
        let c = choose|converter: Result<OpenCC, OpenCCError>| #[trigger]
            sets_up(variant, converter) && Some(converted(variant, t)) == match converter {
                Ok(_) => Some(converted(variant, t)),
                Err(_) => None,
            };
        assert(sets_up(variant, Ok(c->Ok_0)));
    }
}

/// A transcription in any other language is not converted.
pub proof fn other_languages_are_not_converted(
    language: Seq<char>,
    transcription: Seq<char>,
    text: Option<Seq<char>>,
)
    requires
        language != "zh-Hans"@,
        language != "zh-Hant"@,
    ensures
        can_become(language, transcription, text) <==> text is None,
{
}

} // verus!
