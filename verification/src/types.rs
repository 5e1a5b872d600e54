//! The wire and configuration types the client and relay exchange.

use vstd::prelude::*;

use crate::text::str_eq;

verus! {

/// A text-to-image generation request.
pub struct GenerateRequest {
    pub prompt: String,
}

/// An image-edit request: the image travels base64-encoded.
pub struct EditRequest {
    pub prompt: String,
    pub image: String,
    pub mime_type: String,
}

/// The relay's reply to an image request.
pub struct ApiResponse {
    pub success: bool,
    pub image: Option<String>,
    pub mime_type: Option<String>,
    pub error: Option<String>,
}

/// An account-creation request.
pub struct RegisterRequest {
    pub email: String,
    pub password: String,
}

/// A login request.
pub struct LoginRequest {
    pub email: String,
    pub password: String,
}

/// The relay's reply to a register or login request.
pub struct AuthResponse {
    pub success: bool,
    pub api_key: Option<String>,
    pub error: Option<String>,
}

/// A text-to-video submission.
pub struct GenerateVideoRequest {
    pub prompt: String,
    pub negative_prompt: Option<String>,
    pub aspect_ratio: Option<String>,
    pub resolution: Option<String>,
}

/// An image-to-video submission: the image travels base64-encoded.
pub struct EditVideoRequest {
    pub prompt: String,
    pub image: String,
    pub mime_type: String,
    pub negative_prompt: Option<String>,
    pub aspect_ratio: Option<String>,
    pub resolution: Option<String>,
}

/// The relay's reply to a video submission: an operation identifier on
/// success, an error otherwise.
pub struct VideoOperationResponse {
    pub success: bool,
    pub operation_name: Option<String>,
    pub error: Option<String>,
}

/// The relay's reply to a poll: not done yet, done with a result
/// locator, or failed.
pub struct VideoStatusResponse {
    pub success: bool,
    pub done: Option<bool>,
    pub video_uri: Option<String>,
    pub error: Option<String>,
}

/// The relay's reply to a synchronous video request.
pub struct ApiVideoResponse {
    pub success: bool,
    pub video_uri: Option<String>,
    pub error: Option<String>,
}

/// The client's stored settings.
pub struct Config {
    pub api_url: Option<String>,
    pub output_dir: Option<String>,
    pub api_key: Option<String>,
    pub email: Option<String>,
}

proof fn lemma_config_keys_distinct()
    ensures
        "api_url"@ != "output_dir"@,
        "api_url"@ != "api_key"@,
        "api_url"@ != "email"@,
        "output_dir"@ != "api_key"@,
        "output_dir"@ != "email"@,
        "api_key"@ != "email"@,
{
    reveal_strlit("api_url");
    reveal_strlit("output_dir");
    reveal_strlit("api_key");
    reveal_strlit("email");
    assert("api_url"@.len() == 7);
    assert("output_dir"@.len() == 10);
    assert("api_key"@.len() == 7);
    assert("email"@.len() == 5);
    assert("api_url"@[4] == 'u');
    assert("api_key"@[4] == 'k');
}

impl Config {
    /// Updates one settings field by key name; an unknown key leaves the
    /// settings unchanged and reports which key was refused.
    pub fn set(&mut self, key: &str, value: String) -> (r: Result<(), String>)
        ensures
            key@ == "api_url"@ ==> r is Ok && *final(self) == (Config {
                api_url: Some(value),
                ..*old(self)
            }),
            key@ == "output_dir"@ ==> r is Ok && *final(self) == (Config {
                output_dir: Some(value),
                ..*old(self)
            }),
            key@ == "api_key"@ ==> r is Ok && *final(self) == (Config {
                api_key: Some(value),
                ..*old(self)
            }),
            key@ == "email"@ ==> r is Ok && *final(self) == (Config {
                email: Some(value),
                ..*old(self)
            }),
            key@ != "api_url"@ && key@ != "output_dir"@ && key@ != "api_key"@ && key@ != "email"@
                ==> *final(self) == *old(self) && (r matches Err(e) && e@
                == "Unknown config key: "@ + key@),
    {
        proof {
            lemma_config_keys_distinct();
        }
        if str_eq(key, "api_url") {
            self.api_url = Some(value);
            Ok(())
        } else if str_eq(key, "output_dir") {
            self.output_dir = Some(value);
            Ok(())
        } else if str_eq(key, "api_key") {
            self.api_key = Some(value);
            Ok(())
        } else if str_eq(key, "email") {
            self.email = Some(value);
            Ok(())
        } else {
            let mut msg = String::from_str("Unknown config key: ");
            msg.append(key);
            Err(msg)
        }
    }

    /// Records a successful login: the account's address and the API
    /// key it was issued; nothing else changes.
    pub fn store_login(&mut self, email: &str, api_key: String)
        ensures
            final(self).api_key == Some(api_key),
            final(self).email matches Some(e) && e@ == email@,
            final(self).api_url == old(self).api_url,
            final(self).output_dir == old(self).output_dir,
    {
        self.api_key = Some(api_key);
        self.email = Some(String::from_str(email));
    }

    /// Forgets the stored login: address and API key are gone, the
    /// rest stays.
    pub fn clear_login(&mut self)
        ensures
            final(self).api_key is None,
            final(self).email is None,
            final(self).api_url == old(self).api_url,
            final(self).output_dir == old(self).output_dir,
    {
        self.api_key = None;
        self.email = None;
    }

    /// Reads one settings field by key name; an unknown key reads as
    /// unset.
    pub fn get(&self, key: &str) -> (r: Option<String>)
        ensures
            key@ == "api_url"@ ==> r == self.api_url,
            key@ == "output_dir"@ ==> r == self.output_dir,
            key@ == "api_key"@ ==> r == self.api_key,
            key@ == "email"@ ==> r == self.email,
            key@ != "api_url"@ && key@ != "output_dir"@ && key@ != "api_key"@ && key@ != "email"@
                ==> r is None,
    {
        proof {
            lemma_config_keys_distinct();
        }
        if str_eq(key, "api_url") {
            clone_opt_string(&self.api_url)
        } else if str_eq(key, "output_dir") {
            clone_opt_string(&self.output_dir)
        } else if str_eq(key, "api_key") {
            clone_opt_string(&self.api_key)
        } else if str_eq(key, "email") {
            clone_opt_string(&self.email)
        } else {
            None
        }
    }
}

/// Copies an optional string.
pub fn clone_opt_string(o: &Option<String>) -> (r: Option<String>)
    ensures
        r == *o,
{
    match o {
        Some(s) => Some(s.clone()),
        None => None,
    }
}

} // verus!
