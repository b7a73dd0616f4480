//! The page that shows the API description.

use vstd::prelude::*;
use vstd::string::StringExecFns;

verus! {

/// The API description of the backend.
#[derive(Clone, Copy, Debug, PartialEq, Eq, Structural)]
pub struct ApiDoc;

/// Where the API description is served as JSON.
pub const OPENAPI_JSON_ENDPOINT: &'static str = "/api-doc/openapi.json";

/// The page up to the address of the API description.
pub const UI_PAGE_HEAD: &'static str = r###"<!DOCTYPE html>
    <html lang="en">
    <head>
        <meta charset="utf-8" />
        <meta name="viewport" content="width=device-width, initial-scale=1" />
        <meta name="description" content="SwaggerUI" />
        <title>SwaggerUI</title>
        <link
        rel="stylesheet"
        href="https://unpkg.com/swagger-ui-dist@4.5.0/swagger-ui.css"
        />
    </head>
    <body>
        <div id="swagger-ui"></div>
        <script
        src="https://unpkg.com/swagger-ui-dist@4.5.0/swagger-ui-bundle.js"
        crossorigin
        ></script>
        <script>
        window.onload = () => {
            window.ui = SwaggerUIBundle({
            url: `${window.location.origin}"###;

/// The page from the address of the API description on.
pub const UI_PAGE_TAIL: &'static str = r###"`,
            dom_id: "#swagger-ui",
            });
        };
        </script>
    </body>
    </html>
"###;

impl ApiDoc {
    /// The HTML page that loads the viewer and points it at the description
    /// served under `endpoint`.
    pub fn ui_page(endpoint: &str) -> (page: String)
        ensures
            page@ == UI_PAGE_HEAD@ + endpoint@ + UI_PAGE_TAIL@,
    {
        let mut page = String::from_str(UI_PAGE_HEAD);
        page.append(endpoint);
        page.append(UI_PAGE_TAIL);
        page
    }
}

} // verus!
