use vstd::prelude::*;

verus! {

/// Where the game package is fetched from.
pub const PACKAGE_URL: &'static str =
    "https://archive.org/download/CU-MBAP/Minecraft%20Archives/Minecraft-1.1.zip/Minecraft-1.1.5.0.Appx";

/// The launcher's directory, under the user's application data directory.
pub const DATA_DIR_NAME: &'static str = "/.btb";

/// The package file, inside the launcher's directory.
pub const PACKAGE_FILE_NAME: &'static str = "/Minecraft-1.1.5.0.Appx";

/// The PowerShell command that prints the installed game's version.
pub const VERSION_QUERY: &'static str =
    "Get-AppxPackage -Name Microsoft.MinecraftUWP | Select-Object -ExpandProperty Version | ForEach-Object { $_.ToString().Trim() }";

/// The PowerShell command that starts the installed game.
pub const LAUNCH_COMMAND: &'static str = "start minecraft://";

/// The text of `bytes` read as UTF-8, each invalid sequence replaced by
/// U+FFFD.
pub uninterp spec fn lossy_text_of(bytes: Seq<u8>) -> Seq<char>;

/// `s` without its leading and trailing whitespace.
pub uninterp spec fn trimmed_of(s: Seq<char>) -> Seq<char>;

/// Relies on `String::from_utf8_lossy`: the decoded text depends on the
/// bytes alone.
#[verifier::external_body]
fn decode_lossy(bytes: &[u8]) -> (r: String)
    ensures
        r@ == lossy_text_of(bytes@),
{
    String::from_utf8_lossy(bytes).into_owned()
}

/// Relies on `str::trim`: the trimmed text depends on the text alone.
#[verifier::external_body]
fn trim_text(s: &str) -> (r: String)
    ensures
        r@ == trimmed_of(s@),
{
    s.trim().to_string()
}

pub open spec fn data_dir_spec(appdata: Seq<char>) -> Seq<char> {
    appdata + DATA_DIR_NAME@
}

pub open spec fn package_path_spec(appdata: Seq<char>) -> Seq<char> {
    data_dir_spec(appdata) + PACKAGE_FILE_NAME@
}

pub open spec fn version_failure_text() -> Seq<char> {
    "Failed to get Minecraft version"@
}

pub open spec fn install_failure_prefix() -> Seq<char> {
    "Failed to install .appx file. Error: "@
}

pub open spec fn launch_failure_prefix() -> Seq<char> {
    "Failed to start Minecraft. Error: "@
}

/// The launcher's directory under the application data directory `appdata`.
pub fn data_dir(appdata: &str) -> (r: String)
    ensures
        r@ == data_dir_spec(appdata@),
{
    let mut r = String::from_str(appdata);
    r.append(DATA_DIR_NAME);
    r
}

/// Where the package file is kept under the application data directory
/// `appdata`.
pub fn package_path(appdata: &str) -> (r: String)
    ensures
        r@ == package_path_spec(appdata@),
{
    let mut r = data_dir(appdata);
    r.append(PACKAGE_FILE_NAME);
    r
}

/// The PowerShell command that installs the package at `path`.
pub fn install_command(path: &str) -> (r: String)
    ensures
        r@ == "Add-AppxPackage -Path \""@ + path@ + "\""@,
{
    let mut r = String::from_str("Add-AppxPackage -Path \"");
    r.append(path);
    r.append("\"");
    r
}

/// The installed version, from whether the version query succeeded and
/// what it printed.
pub fn installed_version(success: bool, stdout: &[u8]) -> (r: Result<String, String>)
    ensures
        success ==> (r matches Ok(v) && v@ == trimmed_of(lossy_text_of(stdout@))),
        !success ==> (r matches Err(m) && m@ == version_failure_text()),
{
    if !success {
        return Err(String::from_str("Failed to get Minecraft version"));
    }
    let text = decode_lossy(stdout);
    Ok(trim_text(text.as_str()))
}

fn command_outcome(success: bool, stderr: &[u8], prefix: &str) -> (r: Result<(), String>)
    ensures
        success ==> r is Ok,
        !success ==> (r matches Err(m) && m@ == prefix@ + lossy_text_of(stderr@)),
{
    if success {
        Ok(())
    } else {
        let mut m = String::from_str(prefix);
        let text = decode_lossy(stderr);
        m.append(text.as_str());
        Err(m)
    }
}

/// The outcome of installing the package, from whether the install
/// command succeeded and what it printed on its error stream.
pub fn install_outcome(success: bool, stderr: &[u8]) -> (r: Result<(), String>)
    ensures
        success ==> r is Ok,
        !success ==> (r matches Err(m) && m@ == install_failure_prefix() + lossy_text_of(stderr@)),
{
    command_outcome(success, stderr, "Failed to install .appx file. Error: ")
}

/// The outcome of starting the game, from whether the launch command
/// succeeded and what it printed on its error stream.
pub fn launch_outcome(success: bool, stderr: &[u8]) -> (r: Result<(), String>)
    ensures
        success ==> r is Ok,
        !success ==> (r matches Err(m) && m@ == launch_failure_prefix() + lossy_text_of(stderr@)),
{
    command_outcome(success, stderr, "Failed to start Minecraft. Error: ")
}

} // verus!
