//! The static pages of the appliance. Their content is fixed text; the
//! server only chooses among them.

use vstd::prelude::*;
use vstd::string::StringSliceAdditionalSpecFns;

verus! {

/// The fragment of the home page: the envelope alone.
pub const HOME: &'static str = "";

/// The fragment that reports a pulsed power switch.
pub const SWITCH_SUCCESS: &'static str = "\
<h1>Switch</h1>
<p>Switch activated!</p>";

/// The form that asks which pin to pulse.
pub const SWITCH_SELECT: &'static str = "\
<h1>Switch</h1>
<p>Select the pin to use as a power switch</p>
<form method=\"get\">
  <div>
    <label for=\"gpio2\">GPIO 2</label>
    <input type=\"radio\" id=\"gpio2\" name=\"gpio\" value=\"2\" />
    <br />
    <label for=\"gpio3\">GPIO 3</label>
    <input type=\"radio\" id=\"gpio3\" name=\"gpio\" value=\"3\" />
    <br />
    <label for=\"gpio4\">GPIO 4</label>
    <input type=\"radio\" id=\"gpio4\" name=\"gpio\" value=\"4\" />
    <br />
    <label for=\"gpio5\">GPIO 5</label>
    <input type=\"radio\" id=\"gpio5\" name=\"gpio\" value=\"5\" />
    <br />
    <label for=\"gpio6\">GPIO 6</label>
    <input type=\"radio\" id=\"gpio6\" name=\"gpio\" value=\"6\" />
    <br />
    <label for=\"gpio7\">GPIO 7</label>
    <input type=\"radio\" id=\"gpio7\" name=\"gpio\" value=\"7\" />
    <br />
    <label for=\"gpio8\">GPIO 8</label>
    <input type=\"radio\" id=\"gpio8\" name=\"gpio\" value=\"8\" />
    <br />
    <label for=\"gpio9\">GPIO 9</label>
    <input type=\"radio\" id=\"gpio9\" name=\"gpio\" value=\"9\" />
  </div>
  <input type=\"submit\" value=\"Submit\" />
</form>";

/// The form that asks for the hardware address to wake.
pub const WOL_INPUT: &'static str = "\
<h1>WOL</h1>
<p>Insert the MAC address of the device to wake</p>
<form method=\"get\">
  <div>
    <label for=\"mac_addr\">Mac Address:</label>
    <input type=\"text\" id=\"mac_addr\" name=\"mac_addr\" />
  </div>
  <input type=\"submit\" value=\"Submit\" />
</form>";

/// The fragment that reports a sent magic packet.
pub const WOL_SUCCESS: &'static str = "\
<h1>WOL</h1>
<p>Packet sent!</p>";

/// The fragment shown when a request could not be handled.
pub const ERROR: &'static str = "\
<h1>Error</h1>
<p>An error occured while handling the query</p>";

/// The fragment shown for a service that is switched off.
pub const NOT_ENABLED: &'static str = "\
<h1>Error</h1>
<p>This service is not enabled on this device</p>";

/// The navigation menu that follows every fragment.
pub const HTML_MENU: &'static str = "\
\r\n<br />
<ol>
  <h1>Menu</h1>
  <li>
    <a class=\"arrow\" href=\"/wol\"
      ><i class=\"fas fa-arrow-alt-right\"></i>WOL</a
    >
  </li>
  <li>
    <a class=\"arrow\" href=\"/switch\"
      ><i class=\"fas fa-arrow-alt-right\"></i>Switch</a
    >
  </li>
</ol>\r\n";

/// The head of every page, up to the opening of the body.
pub const HTML_HEADER: &'static str = "\
<!doctype html>
<html lang=\"en\">
<head>
<meta charset=\"UTF-8\" />
<title>Wakesp</title>
<meta name=\"description\" content=\"Wakesp\" />
<meta name=\"color-scheme\" content=\"dark\" />
<link
  rel=\"stylesheet\"
  href=\"https://pro.fontawesome.com/releases/v5.15.4/css/all.css\"
/>
<meta
  name=\"viewport\"
  content=\"width=device-width, user-scalable=no, initial-scale=1.0, maximum-scale=1.0, minimum-scale=1.0\"
/>
<style>
  @import \"https://fonts.googleapis.com/css?family=Press%20Start%202P\";

  * {
    margin: 0;
    padding: 0;
  }

  html,
  body {
    display: flex;
    flex-direction: column;
    justify-content: center;
    align-items: center;
    text-align: center;
    height: 120%;
    background-color: #221;
  }

  html,
  body,
  input {
    font-family: \"Press Start 2P\";
    font-size: 1rem;
    line-height: 2;
    text-transform: uppercase;
  }

  p,
  label {
    color: #f6eb14;
    padding: 0.5em;
    margin: 0.5em;
  }

  li {
    color: #4faf44;
  }

  a,
  input {
    padding: 0.5em;
    margin: 0.5em;
    background-color: #4faf44;
    border: 1px solid #f6eb14;
    border-radius: 0.5em;
    text-decoration: none;
    text-align: center;
    color: #fff090;
  }

  input[type=\"radio\"] {
    width: 1.5em;
    height: 1.5em;
  }

  form {
    display: flex;
    flex-direction: column;
    vertical-align: middle;
    justify-content: center;
    align-items: center;
    text-align: center;
    background-color: #ffe1;
    border: 1px solid #f6eb14;
    border-radius: 0.5em;
    padding-bottom: 0.5em;
  }

  .arrow {
    position: relative;
    display: block;
    color: #f6eb14;
  }

  .arrow i {
    display: none;
  }

  .arrow:hover,
  label:hover,
  input[type=\"submit\"]:hover,
  input[type=\"radio\"]:hover {
    cursor: pointer;
    background-color: transparent;
  }

  .arrow:hover i {
    display: block;
    position: absolute;
    top: 1em;
    left: -6em;
  }
</style>
</head>
<body>\r\n";

/// The end of every page.
pub const HTML_TAIL: &'static str = "\r\n</body>\r\n</html>\r\n";

/// The fragments that the server can put into a response.
#[derive(Clone, Copy, Debug, PartialEq, Eq, Structural)]
pub enum Page {
    Home,
    SwitchSuccess,
    SwitchSelect,
    WolInput,
    WolSuccess,
    Error,
    NotEnabled,
}

impl Page {
    /// The text of the fragment.
    pub open spec fn text(self) -> &'static str {
        match self {
            Page::Home => HOME,
            Page::SwitchSuccess => SWITCH_SUCCESS,
            Page::SwitchSelect => SWITCH_SELECT,
            Page::WolInput => WOL_INPUT,
            Page::WolSuccess => WOL_SUCCESS,
            Page::Error => ERROR,
            Page::NotEnabled => NOT_ENABLED,
        }
    }

    /// The bytes of the fragment.
    pub fn html(self) -> (bytes: &'static [u8])
        ensures
            bytes@ == self.text().spec_bytes(),
    {
        match self {
            Page::Home => HOME.as_bytes(),
            Page::SwitchSuccess => SWITCH_SUCCESS.as_bytes(),
            Page::SwitchSelect => SWITCH_SELECT.as_bytes(),
            Page::WolInput => WOL_INPUT.as_bytes(),
            Page::WolSuccess => WOL_SUCCESS.as_bytes(),
            Page::Error => ERROR.as_bytes(),
            Page::NotEnabled => NOT_ENABLED.as_bytes(),
        }
    }
}

} // verus!
