//! Where a retrieved artifact goes: decoding the payload, picking the
//! output directory, and naming the file.

use vstd::prelude::*;

verus! {

/// What `encode_base64` returns for given bytes. Standard base64 with
/// padding is a function of the bytes alone; this names that result.
pub uninterp spec fn b64_of(bytes: Seq<u8>) -> Seq<char>;

/// Relies on base64's standard engine `encode`: four output characters
/// for every three input bytes, padded; the result depends on the
/// bytes alone.
#[verifier::external_body]
pub fn encode_base64(bytes: &Vec<u8>) -> (r: String)
    requires
        bytes@.len() / 3 * 4 + 4 <= usize::MAX,
    ensures
        r@ == b64_of(bytes@),
        r@.len() == 4 * ((bytes@.len() + 2) / 3),
{
    base64::Engine::encode(&base64::engine::general_purpose::STANDARD, bytes)
}

/// Relies on base64's standard engine `decode`, which requires
/// canonical padding and rejects stray trailing bits: it accepts
/// exactly the strings that `encode` produces, and returns the bytes
/// they encode. So success means the input is the canonical encoding
/// of the returned bytes, and refusal means no bytes encode to it.
#[verifier::external_body]
pub fn decode_base64(s: &str) -> (r: Result<Vec<u8>, String>)
    ensures
        r matches Ok(bytes) ==> s@ == b64_of(bytes@),
        r matches Err(_) ==> (forall|b: Seq<u8>| s@ != b64_of(b)),
{
    base64::Engine::decode(&base64::engine::general_purpose::STANDARD, s).map_err(
        |e| format!("{}", e),
    )
}

/// Relies on chrono's `Local::now` and its formatter, rendering the
/// current wall-clock time as `YYYYMMDD_HHMMSS`. The value depends on
/// the clock, so nothing is promised of it.
#[verifier::external_body]
pub fn local_timestamp_compact() -> (r: String) {
    chrono::Local::now().format("%Y%m%d_%H%M%S").to_string()
}

/// Where an artifact is written: explicitly the current directory,
/// else the directory the caller chose, else the platform's media
/// directory when there is one, else the current directory.
pub fn resolve_output_dir(
    save_to_current: bool,
    chosen_dir: &Option<String>,
    fallback_dir: &Option<String>,
) -> (r: String)
    ensures
        save_to_current ==> r@ == "."@,
        !save_to_current ==> (chosen_dir matches Some(d) ==> r@ == d@),
        !save_to_current && chosen_dir is None ==> (fallback_dir matches Some(d) ==> r@ == d@),
        !save_to_current && chosen_dir is None && fallback_dir is None ==> r@ == "."@,
{
    if save_to_current {
        String::from_str(".")
    } else {
        match chosen_dir {
            Some(d) => d.clone(),
            None => match fallback_dir {
                Some(d) => d.clone(),
                None => String::from_str("."),
            },
        }
    }
}

/// The stem a saved artifact is named with: the caller's name when one
/// was given, else the given default.
pub open spec fn spec_file_stem(name: Option<Seq<char>>, default_stem: Seq<char>) -> Seq<char> {
    match name {
        Some(n) => n,
        None => default_stem,
    }
}

/// A timestamped file name: stem, underscore, timestamp, extension.
pub open spec fn spec_stamped_name(stem: Seq<char>, stamp: Seq<char>, extension: Seq<char>) -> Seq<
    char,
> {
    stem + "_"@ + stamp + extension
}

/// Builds the timestamped name an image is saved under.
pub fn image_file_name(name: &Option<String>, stamp: &str) -> (r: String)
    ensures
        r@ == spec_stamped_name(
            spec_file_stem(crate::text::opt_view(*name), "gemini_image"@),
            stamp@,
            ".png"@,
        ),
{
    let mut s = match name {
        Some(n) => n.clone(),
        None => String::from_str("gemini_image"),
    };
    s.append("_");
    s.append(stamp);
    s.append(".png");
    s
}

/// Builds the timestamped name a video is saved under.
pub fn video_file_name(name: &Option<String>, stamp: &str) -> (r: String)
    ensures
        r@ == spec_stamped_name(
            spec_file_stem(crate::text::opt_view(*name), "gemini_video"@),
            stamp@,
            ".mp4"@,
        ),
{
    let mut s = match name {
        Some(n) => n.clone(),
        None => String::from_str("gemini_video"),
    };
    s.append("_");
    s.append(stamp);
    s.append(".mp4");
    s
}

/// A timestamped name always ends in its extension, whatever the
/// clock said.
pub proof fn lemma_stamped_name_extension(stem: Seq<char>, stamp: Seq<char>, extension: Seq<char>)
    ensures
        spec_stamped_name(stem, stamp, extension).len() >= extension.len(),
        spec_stamped_name(stem, stamp, extension).subrange(
            spec_stamped_name(stem, stamp, extension).len() - extension.len(),
            spec_stamped_name(stem, stamp, extension).len() as int,
        ) == extension,
{
    let whole = spec_stamped_name(stem, stamp, extension);
    assert(whole.subrange(whole.len() - extension.len(), whole.len() as int) =~= extension);
}

/// Where and under what name an artifact is written.
pub struct SaveLocation {
    pub directory: String,
    pub file_name: String,
}

/// The placement core of saving a fetched video: the directory per the
/// caller's choice, and a timestamped `.mp4` name.
pub fn plan_video_save(
    chosen_dir: &Option<String>,
    fallback_dir: &Option<String>,
    name: &Option<String>,
    save_to_current: bool,
    stamp: &str,
) -> (r: SaveLocation)
    ensures
        save_to_current ==> r.directory@ == "."@,
        !save_to_current ==> (chosen_dir matches Some(d) ==> r.directory@ == d@),
        !save_to_current && chosen_dir is None ==> (fallback_dir matches Some(d) ==> r.directory@
            == d@),
        !save_to_current && chosen_dir is None && fallback_dir is None ==> r.directory@ == "."@,
        r.file_name@ == spec_stamped_name(
            spec_file_stem(crate::text::opt_view(*name), "gemini_video"@),
            stamp@,
            ".mp4"@,
        ),
{
    SaveLocation {
        directory: resolve_output_dir(save_to_current, chosen_dir, fallback_dir),
        file_name: video_file_name(name, stamp),
    }
}

/// The computing core of saving a generated image: decode the base64
/// payload, pick the directory, and name the file. Exactly the
/// payloads that are canonical base64 succeed.
pub fn plan_image_save(
    base64_data: &str,
    chosen_dir: &Option<String>,
    fallback_dir: &Option<String>,
    name: &Option<String>,
    save_to_current: bool,
    stamp: &str,
) -> (r: Result<(Vec<u8>, SaveLocation), String>)
    ensures
        (exists|b: Seq<u8>| base64_data@ == b64_of(b)) ==> r is Ok,
        r matches Ok(plan) ==> ({
            &&& base64_data@ == b64_of(plan.0@)
            &&& save_to_current ==> plan.1.directory@ == "."@
            &&& !save_to_current ==> (chosen_dir matches Some(d) ==> plan.1.directory@ == d@)
            &&& !save_to_current && chosen_dir is None ==> (fallback_dir matches Some(d)
                ==> plan.1.directory@ == d@)
            &&& !save_to_current && chosen_dir is None && fallback_dir is None
                ==> plan.1.directory@ == "."@
            &&& plan.1.file_name@ == spec_stamped_name(
                spec_file_stem(crate::text::opt_view(*name), "gemini_image"@),
                stamp@,
                ".png"@,
            )
        }),
{
    let bytes = match decode_base64(base64_data) {
        Ok(bytes) => bytes,
        Err(e) => {
            return Err(e);
        },
    };
    let location = SaveLocation {
        directory: resolve_output_dir(save_to_current, chosen_dir, fallback_dir),
        file_name: image_file_name(name, stamp),
    };
    Ok((bytes, location))
}

} // verus!
