use vstd::prelude::*;
use vstd::string::*;
use crate::foreign::io_error_text;
use crate::text::{concat, join_strings, push_char, push_decimal, push_signed_decimal, spec_decimal, spec_joined, spec_signed_decimal, texts_of};

verus! {

/// Failure of `application.fam` parsing.
#[derive(Debug)]
#[non_exhaustive]
pub enum FamParseError {
    /// An expected token is missing at the given offset.
    Expected {
        /// Token the parser expected to find.
        token: String,
        /// Offset the parser stopped at.
        position: usize,
    },
    /// A unary minus was applied to something other than a number.
    UnaryMinusOnNonNumber,
    /// A binary operator outside the supported subset was used.
    UnsupportedOperation {
        /// Operator that is not supported.
        operator: String,
    },
    /// The manifest ended while a value was still expected.
    UnexpectedEnd,
    /// A character that cannot start a value was encountered.
    UnexpectedCharacter {
        /// Character the parser stopped at.
        character: char,
    },
    /// A string literal was never closed.
    UnterminatedString,
    /// A list or a tuple was never closed.
    UnterminatedSequence,
    /// A dictionary literal was never closed.
    UnterminatedDict,
    /// A call argument list was never closed.
    UnterminatedCall,
}

/// Text of a manifest parse error.
pub open spec fn spec_fam_parse_message(error: FamParseError) -> Seq<char> {
    match error {
        FamParseError::Expected { token, position } => "Expected \""@ + token@ + "\" at offset "@
            + spec_decimal(position as nat) + " in application.fam"@,
        FamParseError::UnaryMinusOnNonNumber => "Unary minus on a non-number"@,
        FamParseError::UnsupportedOperation { operator } => "Unsupported operation \""@
            + operator@ + "\" in application.fam"@,
        FamParseError::UnexpectedEnd => "Unexpected end of application.fam"@,
        FamParseError::UnexpectedCharacter { character } => "Unexpected character \""@
            + seq![character] + "\" in application.fam"@,
        FamParseError::UnterminatedString => "Unterminated string"@,
        FamParseError::UnterminatedSequence => "Unterminated sequence"@,
        FamParseError::UnterminatedDict => "Unterminated dict"@,
        FamParseError::UnterminatedCall => "Unterminated call"@,
    }
}

impl FamParseError {
    /// Human-readable text of the error.
    pub fn message(&self) -> (m: String)
        ensures
            m@ == spec_fam_parse_message(*self),
    {
        match self {
            FamParseError::Expected { token, position } => {
                let mut m = concat("Expected \"", token.as_str());
                m.append("\" at offset ");
                push_decimal(&mut m, *position as u64);
                m.append(" in application.fam");
                m
            },
            FamParseError::UnaryMinusOnNonNumber => "Unary minus on a non-number".to_owned(),
            FamParseError::UnsupportedOperation { operator } => {
                let mut m = concat("Unsupported operation \"", operator.as_str());
                m.append("\" in application.fam");
                m
            },
            FamParseError::UnexpectedEnd => "Unexpected end of application.fam".to_owned(),
            FamParseError::UnexpectedCharacter { character } => {
                let mut m = "Unexpected character \"".to_owned();
                push_char(&mut m, *character);
                m.append("\" in application.fam");
                m
            },
            FamParseError::UnterminatedString => "Unterminated string".to_owned(),
            FamParseError::UnterminatedSequence => "Unterminated sequence".to_owned(),
            FamParseError::UnterminatedDict => "Unterminated dict".to_owned(),
            FamParseError::UnterminatedCall => "Unterminated call".to_owned(),
        }
    }
}

/// Failure of application manifest loading or validation.
#[derive(Debug)]
#[non_exhaustive]
pub enum ManifestError {
    /// The application directory has no `application.fam`.
    NotFound {
        /// Path the manifest was looked up at.
        path: String,
    },
    /// The manifest contains no `App()` call.
    NoAppFound {
        /// Path of the manifest that was parsed.
        path: String,
    },
    /// The application identifier is missing or malformed.
    InvalidAppId {
        /// Identifier as declared in the manifest, if any.
        appid: Option<String>,
        /// Regular expression the identifier must match.
        pattern: String,
    },
    /// The declared application type is not known.
    UnknownAppType {
        /// Identifier of the offending application.
        appid: String,
    },
    /// A version component is not an integer.
    InvalidVersionForm {
        /// Version as declared in the manifest.
        text: String,
    },
    /// The version has fewer than two components.
    NotEnoughVersionComponents {
        /// Version as declared in the manifest.
        text: String,
    },
    /// The manifest could not be parsed.
    Parse(FamParseError),
    /// The manifest could not be read.
    Io(std::io::Error),
}

/// How an application identifier reads in a message: the identifier, or `null` when the
/// manifest declares none.
pub open spec fn spec_render_appid(appid: Option<String>) -> Seq<char> {
    match appid {
        Some(id) => id@,
        None => "null"@,
    }
}

fn render_appid(appid: &Option<String>) -> (r: &str)
    ensures
        r@ == spec_render_appid(*appid),
{
    match appid {
        Some(id) => id.as_str(),
        None => "null",
    }
}

/// Text of a manifest error, where it is made of the error's own fields.
pub open spec fn spec_manifest_message(error: ManifestError) -> Option<Seq<char>> {
    match error {
        ManifestError::NotFound { path } => Some("App manifest not found at "@ + path@),
        ManifestError::NoAppFound { path } => Some("No App() found in "@ + path@),
        ManifestError::InvalidAppId { appid, pattern } => Some(
            "Invalid appid '"@ + spec_render_appid(appid) + "'. Must match regex '"@ + pattern@
                + "'"@,
        ),
        ManifestError::UnknownAppType { appid } => Some("Unknown apptype for "@ + appid@),
        ManifestError::InvalidVersionForm { text } => Some(
            "Invalid version '"@ + text@ + "'. Must be in the form 'major.minor'"@,
        ),
        ManifestError::NotEnoughVersionComponents { text } => Some(
            "Invalid version '"@ + text@ + "'. Not enough version components"@,
        ),
        ManifestError::Parse(e) => Some(spec_fam_parse_message(e)),
        ManifestError::Io(_) => None,
    }
}

impl ManifestError {
    /// Human-readable text of the error; a parse failure reads as the text of the
    /// [`FamParseError`] and a read failure as the text of the underlying error.
    pub fn message(&self) -> (m: String)
        ensures
            spec_manifest_message(*self) matches Some(text) ==> m@ == text,
    {
        match self {
            ManifestError::NotFound { path } => concat("App manifest not found at ", path.as_str()),
            ManifestError::NoAppFound { path } => concat("No App() found in ", path.as_str()),
            ManifestError::InvalidAppId { appid, pattern } => {
                let mut m = concat("Invalid appid '", render_appid(appid));
                m.append("'. Must match regex '");
                m.append(pattern.as_str());
                m.append("'");
                m
            },
            ManifestError::UnknownAppType { appid } => concat("Unknown apptype for ", appid.as_str()),
            ManifestError::InvalidVersionForm { text } => {
                let mut m = concat("Invalid version '", text.as_str());
                m.append("'. Must be in the form 'major.minor'");
                m
            },
            ManifestError::NotEnoughVersionComponents { text } => {
                let mut m = concat("Invalid version '", text.as_str());
                m.append("'. Not enough version components");
                m
            },
            ManifestError::Parse(e) => e.message(),
            ManifestError::Io(e) => io_error_text(e),
        }
    }
}

impl From<FamParseError> for ManifestError {
    fn from(error: FamParseError) -> (r: ManifestError) {
        ManifestError::Parse(error)
    }
}

impl vstd::std_specs::convert::FromSpecImpl<FamParseError> for ManifestError {
    open spec fn obeys_from_spec() -> bool {
        true
    }

    open spec fn from_spec(error: FamParseError) -> ManifestError {
        ManifestError::Parse(error)
    }
}

impl From<std::io::Error> for ManifestError {
    fn from(error: std::io::Error) -> (r: ManifestError) {
        ManifestError::Io(error)
    }
}

impl vstd::std_specs::convert::FromSpecImpl<std::io::Error> for ManifestError {
    open spec fn obeys_from_spec() -> bool {
        true
    }

    open spec fn from_spec(error: std::io::Error) -> ManifestError {
        ManifestError::Io(error)
    }
}

/// Failure of ELF parsing.
#[derive(Debug)]
#[non_exhaustive]
pub enum ElfError {
    /// The file does not start with the ELF magic.
    NotElf,
    /// The file is not a 32-bit ELF.
    NotElf32,
    /// The file is not little-endian.
    NotLittleEndian,
    /// The ELF carries no symbol table.
    NoSymbolTable,
    /// A relocation section name does not follow the expected convention.
    UnknownRelocationSection {
        /// Name of the offending section.
        name: String,
    },
    /// The ELF could not be read.
    Io(std::io::Error),
}

/// Text of an ELF error, where it is made of the error's own fields.
pub open spec fn spec_elf_message(error: ElfError) -> Option<Seq<char>> {
    match error {
        ElfError::NotElf => Some("Not an ELF file"@),
        ElfError::NotElf32 => Some("Only ELF32 is supported"@),
        ElfError::NotLittleEndian => Some("Only little-endian ELF is supported"@),
        ElfError::NoSymbolTable => Some("No symbol table found"@),
        ElfError::UnknownRelocationSection { name } => Some(
            "Unknown relocation section name: "@ + name@,
        ),
        ElfError::Io(_) => None,
    }
}

impl ElfError {
    /// Human-readable text of the error; a read failure reads as the text of the underlying
    /// error.
    pub fn message(&self) -> (m: String)
        ensures
            spec_elf_message(*self) matches Some(text) ==> m@ == text,
    {
        match self {
            ElfError::NotElf => "Not an ELF file".to_owned(),
            ElfError::NotElf32 => "Only ELF32 is supported".to_owned(),
            ElfError::NotLittleEndian => "Only little-endian ELF is supported".to_owned(),
            ElfError::NoSymbolTable => "No symbol table found".to_owned(),
            ElfError::UnknownRelocationSection { name } => concat(
                "Unknown relocation section name: ",
                name.as_str(),
            ),
            ElfError::Io(e) => io_error_text(e),
        }
    }
}

impl From<std::io::Error> for ElfError {
    fn from(error: std::io::Error) -> (r: ElfError) {
        ElfError::Io(error)
    }
}

impl vstd::std_specs::convert::FromSpecImpl<std::io::Error> for ElfError {
    open spec fn obeys_from_spec() -> bool {
        true
    }

    open spec fn from_spec(error: std::io::Error) -> ElfError {
        ElfError::Io(error)
    }
}

/// Failure of icon decoding or icon assets compilation.
#[derive(Debug)]
#[non_exhaustive]
pub enum IconError {
    /// The image could not be decoded by any known decoder.
    DecodeFailed {
        /// Path of the offending image.
        path: String,
    },
    /// The icons directory does not exist.
    IconsDirectoryNotFound {
        /// Path the icons directory was looked up at.
        path: String,
    },
    /// Animation frames within one directory have different dimensions.
    AnimationFramesDifferInSize {
        /// Path of the offending animation directory.
        path: String,
    },
    /// An animation directory holds no usable frames.
    InvalidAnimation {
        /// Path of the offending animation directory.
        path: String,
    },
    /// The image exceeds the dimensions the icon format can encode.
    ImageTooBig {
        /// Path of the offending image.
        path: String,
        /// Width of the offending image.
        width: u32,
        /// Height of the offending image.
        height: u32,
        /// Largest width the icon format can encode.
        max_width: u32,
        /// Largest height the icon format can encode.
        max_height: u32,
    },
    /// An image or a directory entry could not be read.
    Io(std::io::Error),
}

/// `<width>x<height>` in decimal.
pub open spec fn spec_dimensions(width: u32, height: u32) -> Seq<char> {
    spec_decimal(width as nat) + "x"@ + spec_decimal(height as nat)
}

fn push_dimensions(s: &mut String, width: u32, height: u32)
    ensures
        final(s)@ == old(s)@ + spec_dimensions(width, height),
{
    push_decimal(s, width as u64);
    s.append("x");
    push_decimal(s, height as u64);
    assert(final(s)@ =~= old(s)@ + spec_dimensions(width, height));
}

/// Text of an icon error, where it is made of the error's own fields.
pub open spec fn spec_icon_message(error: IconError) -> Option<Seq<char>> {
    match error {
        IconError::DecodeFailed { path } => Some("Failed to decode image "@ + path@),
        IconError::IconsDirectoryNotFound { path } => Some(
            "Icons directory not found, path = '"@ + path@ + "'"@,
        ),
        IconError::AnimationFramesDifferInSize { path } => Some(
            "Animation frames differ in size in "@ + path@,
        ),
        IconError::InvalidAnimation { path } => Some("Invalid animation in "@ + path@),
        IconError::ImageTooBig { path, width, height, max_width, max_height } => Some(
            "Image "@ + path@ + " is too big ("@ + spec_dimensions(width, height) + " vs. "@
                + spec_dimensions(max_width, max_height) + ")"@,
        ),
        IconError::Io(_) => None,
    }
}

impl IconError {
    /// Human-readable text of the error; a read failure reads as the text of the underlying
    /// error.
    pub fn message(&self) -> (m: String)
        ensures
            spec_icon_message(*self) matches Some(text) ==> m@ == text,
    {
        match self {
            IconError::DecodeFailed { path } => concat("Failed to decode image ", path.as_str()),
            IconError::IconsDirectoryNotFound { path } => {
                let mut m = concat("Icons directory not found, path = '", path.as_str());
                m.append("'");
                m
            },
            IconError::AnimationFramesDifferInSize { path } => concat(
                "Animation frames differ in size in ",
                path.as_str(),
            ),
            IconError::InvalidAnimation { path } => concat("Invalid animation in ", path.as_str()),
            IconError::ImageTooBig { path, width, height, max_width, max_height } => {
                let mut m = concat("Image ", path.as_str());
                m.append(" is too big (");
                push_dimensions(&mut m, *width, *height);
                m.append(" vs. ");
                push_dimensions(&mut m, *max_width, *max_height);
                m.append(")");
                m
            },
            IconError::Io(e) => io_error_text(e),
        }
    }
}

impl From<std::io::Error> for IconError {
    fn from(error: std::io::Error) -> (r: IconError) {
        IconError::Io(error)
    }
}

impl vstd::std_specs::convert::FromSpecImpl<std::io::Error> for IconError {
    open spec fn obeys_from_spec() -> bool {
        true
    }

    open spec fn from_spec(error: std::io::Error) -> IconError {
        IconError::Io(error)
    }
}

/// Failure of file assets bundling.
#[derive(Debug)]
#[non_exhaustive]
pub enum BundleError {
    /// The assets directory does not exist.
    AssetsDirectoryNotFound {
        /// Path the assets directory was looked up at.
        path: String,
    },
    /// An asset could not be read or written.
    Io(std::io::Error),
}

/// Text of a bundling error, where it is made of the error's own fields.
pub open spec fn spec_bundle_message(error: BundleError) -> Option<Seq<char>> {
    match error {
        BundleError::AssetsDirectoryNotFound { path } => Some(
            "Assets directory "@ + path@ + " does not exist"@,
        ),
        BundleError::Io(_) => None,
    }
}

impl BundleError {
    /// Human-readable text of the error; a read or write failure reads as the text of the
    /// underlying error.
    pub fn message(&self) -> (m: String)
        ensures
            spec_bundle_message(*self) matches Some(text) ==> m@ == text,
    {
        match self {
            BundleError::AssetsDirectoryNotFound { path } => {
                let mut m = concat("Assets directory ", path.as_str());
                m.append(" does not exist");
                m
            },
            BundleError::Io(e) => io_error_text(e),
        }
    }
}

impl From<std::io::Error> for BundleError {
    fn from(error: std::io::Error) -> (r: BundleError) {
        BundleError::Io(error)
    }
}

impl vstd::std_specs::convert::FromSpecImpl<std::io::Error> for BundleError {
    open spec fn obeys_from_spec() -> bool {
        true
    }

    open spec fn from_spec(error: std::io::Error) -> BundleError {
        BundleError::Io(error)
    }
}

/// Failure of an application build.
#[derive(Debug)]
#[non_exhaustive]
pub enum BuildError {
    /// The SDK is not deployed, so nothing can be compiled.
    SdkNotDeployed,
    /// A toolchain executable is missing.
    ToolchainBinaryNotFound {
        /// Path the executable was looked up at.
        path: String,
    },
    /// The manifest declares no application to build.
    NoApplicationInManifest,
    /// The application does not list the requested hardware target.
    UnsupportedTarget {
        /// Identifier of the application being built.
        appid: String,
        /// Hardware target that was requested.
        hardware: String,
    },
    /// No source file matched the application sources.
    NoSourceFiles {
        /// Identifier of the application being built.
        appid: String,
    },
    /// A private library directory declared by the manifest is missing.
    PrivateLibraryNotFound {
        /// Path the library was looked up at.
        path: String,
    },
    /// No source file matched a private library.
    NoPrivateLibrarySources {
        /// Name of the offending library.
        name: String,
    },
    /// The symbol listing tool failed.
    NmFailed {
        /// Standard error output of the tool.
        stderr: String,
    },
    /// The application imports symbols the firmware API does not provide.
    UnresolvedSymbols {
        /// Path of the application binary that was checked.
        fap: String,
        /// Symbols that could not be resolved, sorted.
        unresolved: Vec<String>,
        /// Subset of the unresolved symbols that the API declares as disabled.
        disabled: Vec<String>,
    },
    /// A build tool exited with a non-zero status.
    ToolFailed {
        /// File name of the tool that failed.
        tool: String,
        /// Status the tool exited with.
        exit_code: i32,
    },
    /// The application icon does not fit into the manifest field.
    IconTooLarge {
        /// Size of the encoded icon.
        length: usize,
    },
    /// The application icon has the wrong dimensions.
    IconWrongSize {
        /// Width of the offending icon.
        width: u32,
        /// Height of the offending icon.
        height: u32,
    },
    /// The manifest could not be loaded.
    Manifest(ManifestError),
    /// An ELF produced or consumed by the build could not be parsed.
    Elf(ElfError),
    /// Icon assets could not be compiled.
    Icon(IconError),
    /// File assets could not be bundled.
    Bundle(BundleError),
    /// A file system operation failed.
    Io(std::io::Error),
}

/// The note on disabled symbols that closes an unresolved-symbols message: nothing when
/// none is disabled, else ` (in API, but disabled: {a, b})`.
pub open spec fn spec_render_disabled(disabled: Seq<Seq<char>>) -> Seq<char> {
    if disabled.len() == 0 {
        Seq::empty()
    } else {
        " (in API, but disabled: {"@ + spec_joined(disabled, ", "@) + "})"@
    }
}

fn render_disabled(disabled: &Vec<String>) -> (r: String)
    ensures
        r@ == spec_render_disabled(texts_of(disabled@)),
{
    if disabled.len() == 0 {
        return String::new();
    }
    let mut r = "".to_owned();
    r.append(" (in API, but disabled: {");
    let joined = join_strings(disabled, ", ");
    r.append(joined.as_str());
    r.append("})");
    proof {
        reveal_strlit("");
    }
    r
}

/// Text of a build error, where it is made of the error's own fields or of a nested error
/// whose text is.
pub open spec fn spec_build_message(error: BuildError) -> Option<Seq<char>> {
    match error {
        BuildError::SdkNotDeployed => Some("SDK is not deployed: components.json not found"@),
        BuildError::ToolchainBinaryNotFound { path } => Some(
            "Toolchain binary not found: "@ + path@,
        ),
        BuildError::NoApplicationInManifest => Some("No application found in manifest"@),
        BuildError::UnsupportedTarget { appid, hardware } => Some(
            appid@ + " does not support target f"@ + hardware@,
        ),
        BuildError::NoSourceFiles { appid } => Some("No source files found for "@ + appid@),
        BuildError::PrivateLibraryNotFound { path } => Some(
            "Private library not found: "@ + path@,
        ),
        BuildError::NoPrivateLibrarySources { name } => Some(
            "No sources gathered for private library "@ + name@,
        ),
        BuildError::NmFailed { stderr } => Some("nm failed: "@ + stderr@),
        BuildError::UnresolvedSymbols { fap, unresolved, disabled } => Some(
            fap@ + ": app may not be runnable. Symbols not resolved using firmware's API: {"@
                + spec_joined(texts_of(unresolved@), ", "@) + "}"@ + spec_render_disabled(
                texts_of(disabled@),
            ),
        ),
        BuildError::ToolFailed { tool, exit_code } => Some(
            tool@ + " failed with exit code "@ + spec_signed_decimal(exit_code as int),
        ),
        BuildError::IconTooLarge { length } => Some(
            "Flipper app icon must be 32 bytes or less, but "@ + spec_decimal(length as nat)
                + " bytes were given"@,
        ),
        BuildError::IconWrongSize { width, height } => Some(
            "Flipper app icon must be 10x10 pixels, but "@ + spec_dimensions(width, height)
                + " was given"@,
        ),
        BuildError::Manifest(e) => spec_manifest_message(e),
        BuildError::Elf(e) => spec_elf_message(e),
        BuildError::Icon(e) => spec_icon_message(e),
        BuildError::Bundle(e) => spec_bundle_message(e),
        BuildError::Io(_) => None,
    }
}

impl BuildError {
    /// Reports whether the build failed because the SDK or the toolchain is missing,
    /// as opposed to an application that fails to build.
    ///
    /// The distinction matters to callers that may run the same build somewhere else.
    pub fn is_environment(&self) -> (b: bool)
        ensures
            b == (*self is SdkNotDeployed || *self is ToolchainBinaryNotFound),
    {
        matches!(self, BuildError::SdkNotDeployed | BuildError::ToolchainBinaryNotFound { .. })
    }

    /// Human-readable text of the error; a nested error reads as its own text and a file
    /// system failure as the text of the underlying error.
    pub fn message(&self) -> (m: String)
        ensures
            spec_build_message(*self) matches Some(text) ==> m@ == text,
    {
        match self {
            BuildError::SdkNotDeployed => "SDK is not deployed: components.json not found".to_owned(),
            BuildError::ToolchainBinaryNotFound { path } => concat(
                "Toolchain binary not found: ",
                path.as_str(),
            ),
            BuildError::NoApplicationInManifest => "No application found in manifest".to_owned(),
            BuildError::UnsupportedTarget { appid, hardware } => {
                let mut m = concat(appid.as_str(), " does not support target f");
                m.append(hardware.as_str());
                m
            },
            BuildError::NoSourceFiles { appid } => concat("No source files found for ", appid.as_str()),
            BuildError::PrivateLibraryNotFound { path } => concat(
                "Private library not found: ",
                path.as_str(),
            ),
            BuildError::NoPrivateLibrarySources { name } => concat(
                "No sources gathered for private library ",
                name.as_str(),
            ),
            BuildError::NmFailed { stderr } => concat("nm failed: ", stderr.as_str()),
            BuildError::UnresolvedSymbols { fap, unresolved, disabled } => {
                let mut m = concat(
                    fap.as_str(),
                    ": app may not be runnable. Symbols not resolved using firmware's API: {",
                );
                let joined = join_strings(unresolved, ", ");
                m.append(joined.as_str());
                m.append("}");
                let note = render_disabled(disabled);
                m.append(note.as_str());
                m
            },
            BuildError::ToolFailed { tool, exit_code } => {
                let mut m = concat(tool.as_str(), " failed with exit code ");
                push_signed_decimal(&mut m, *exit_code as i64);
                m
            },
            BuildError::IconTooLarge { length } => {
                let mut m = "Flipper app icon must be 32 bytes or less, but ".to_owned();
                push_decimal(&mut m, *length as u64);
                m.append(" bytes were given");
                m
            },
            BuildError::IconWrongSize { width, height } => {
                let mut m = "Flipper app icon must be 10x10 pixels, but ".to_owned();
                push_dimensions(&mut m, *width, *height);
                m.append(" was given");
                m
            },
            BuildError::Manifest(e) => e.message(),
            BuildError::Elf(e) => e.message(),
            BuildError::Icon(e) => e.message(),
            BuildError::Bundle(e) => e.message(),
            BuildError::Io(e) => io_error_text(e),
        }
    }
}

impl From<ManifestError> for BuildError {
    fn from(error: ManifestError) -> (r: BuildError) {
        BuildError::Manifest(error)
    }
}

impl vstd::std_specs::convert::FromSpecImpl<ManifestError> for BuildError {
    open spec fn obeys_from_spec() -> bool {
        true
    }

    open spec fn from_spec(error: ManifestError) -> BuildError {
        BuildError::Manifest(error)
    }
}

impl From<ElfError> for BuildError {
    fn from(error: ElfError) -> (r: BuildError) {
        BuildError::Elf(error)
    }
}

impl vstd::std_specs::convert::FromSpecImpl<ElfError> for BuildError {
    open spec fn obeys_from_spec() -> bool {
        true
    }

    open spec fn from_spec(error: ElfError) -> BuildError {
        BuildError::Elf(error)
    }
}

impl From<IconError> for BuildError {
    fn from(error: IconError) -> (r: BuildError) {
        BuildError::Icon(error)
    }
}

impl vstd::std_specs::convert::FromSpecImpl<IconError> for BuildError {
    open spec fn obeys_from_spec() -> bool {
        true
    }

    open spec fn from_spec(error: IconError) -> BuildError {
        BuildError::Icon(error)
    }
}

impl From<BundleError> for BuildError {
    fn from(error: BundleError) -> (r: BuildError) {
        BuildError::Bundle(error)
    }
}

impl vstd::std_specs::convert::FromSpecImpl<BundleError> for BuildError {
    open spec fn obeys_from_spec() -> bool {
        true
    }

    open spec fn from_spec(error: BundleError) -> BuildError {
        BuildError::Bundle(error)
    }
}

impl From<std::io::Error> for BuildError {
    fn from(error: std::io::Error) -> (r: BuildError) {
        BuildError::Io(error)
    }
}

impl vstd::std_specs::convert::FromSpecImpl<std::io::Error> for BuildError {
    open spec fn obeys_from_spec() -> bool {
        true
    }

    open spec fn from_spec(error: std::io::Error) -> BuildError {
        BuildError::Io(error)
    }
}

} // verus!
