//! The page served for a target when the user supplied none: a fixed
//! HTML shell that loads the target's glue script and starts it.
use vstd::prelude::*;

verus! {

/// The text before the first occurrence of the target name.
pub open spec fn spec_html_head() -> Seq<char> {
    "\n        <html>\n            <head>\n                <meta content=\"text/html;charset=utf-8\" http-equiv=\"Content-Type\"/>\n                <script src='./"@
}

/// The text between the two occurrences of the target name.
pub open spec fn spec_html_mid() -> Seq<char> {
    ".js'></script>\n                <script>\n                    window.addEventListener('load', function() {\n                        wasm_bindgen(\"./"@
}

/// The text after the second occurrence of the target name.
pub open spec fn spec_html_tail() -> Seq<char> {
    "_bg.wasm\").then(function() {\n                            wasm_bindgen.wasm.main();\n                        });\n                    }, false);\n                </script>\n            </head>\n            <body>\n            </body>\n        </html>"@
}

/// The whole default page: it loads `<target>.js` and, once the page
/// is up, starts the module behind `<target>_bg.wasm`.
pub open spec fn spec_html_index(target: Seq<char>) -> Seq<char> {
    spec_html_head() + target + spec_html_mid() + target + spec_html_tail()
}

/// Write out the default page for a target.
pub fn default_html_index(target: &str) -> (r: String)
    ensures
        r@ == spec_html_index(target@),
{
    let mut r: String =
        "\n        <html>\n            <head>\n                <meta content=\"text/html;charset=utf-8\" http-equiv=\"Content-Type\"/>\n                <script src='./".to_owned();
    r.append(target);
    r.append(
        ".js'></script>\n                <script>\n                    window.addEventListener('load', function() {\n                        wasm_bindgen(\"./",
    );
    r.append(target);
    r.append(
        "_bg.wasm\").then(function() {\n                            wasm_bindgen.wasm.main();\n                        });\n                    }, false);\n                </script>\n            </head>\n            <body>\n            </body>\n        </html>",
    );
    r
}

} // verus!
