use vstd::prelude::*;

verus! {

/// The configuration file, relative to the project root.
pub const CONFIG_FILE: &'static str = ".cargo/config.toml";

/// Build mode: the command alias plus the unstable standard-library rebuild
/// options and path trimming that only compilation needs.
pub const BUILD_MODE_CONFIG: &'static str = "[alias]\nrelease = \"run --manifest-path ./release/Cargo.toml --\"\n\n[unstable]\nbuild-std = [\"std\", \"panic_abort\"]\nbuild-std-features = [\"panic_immediate_abort\"]\ntrim-paths = true\n";

/// Default mode, the file at rest: the command alias only.
pub const DEFAULT_MODE_CONFIG: &'static str = "[alias]\nrelease = \"run --manifest-path ./release/Cargo.toml --\"\n";

/// `rel` placed under the directory `root`.
pub open spec fn path_under(root: Seq<char>, rel: Seq<char>) -> Seq<char> {
    if root.len() == 0 {
        rel
    } else if root.last() == '/' {
        root + rel
    } else {
        root + "/"@ + rel
    }
}

/// The configuration file of the project whose root is `root`.
pub open spec fn config_path_of(root: Seq<char>) -> Seq<char> {
    path_under(root, CONFIG_FILE@)
}

pub fn config_path(root: &str) -> (r: String)
    ensures
        r@ == config_path_of(root@),
{
    let n = root.unicode_len();
    let mut out = String::from_str(root);
    if n > 0 && root.get_char(n - 1) != '/' {
        out.append("/");
    }
    out.append(CONFIG_FILE);
    out
}

/// A whole-file replacement of the configuration file.
pub struct ConfigWrite {
    pub path: String,
    pub contents: String,
}

pub ghost struct WriteView {
    pub path: Seq<char>,
    pub contents: Seq<char>,
}

impl View for ConfigWrite {
    type V = WriteView;

    open spec fn view(&self) -> WriteView {
        WriteView { path: self.path@, contents: self.contents@ }
    }
}

} // verus!
