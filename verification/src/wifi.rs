//! Editing a Wi-Fi configuration: one form for each network, and the switches of
//! the radios.

use crate::models::{BandConfig, SsidConfig, WifiConfig};
use crate::rows::copy_or_empty;
use crate::snapshot;
use crate::text::{self, concat2, concat3, nat_to_text};
use vstd::prelude::*;
use vstd::string::*;

verus! {

/// A network as a value.
#[verifier::ext_equal]
pub struct SsidView {
    pub two_gig_ssid: Option<bool>,
    pub five_gig_ssid: Option<bool>,
    pub six_gig_ssid: Option<bool>,
    pub encryption_mode: Option<Seq<char>>,
    pub encryption_version: Option<Seq<char>>,
    pub guest: Option<bool>,
    pub is_broadcast_enabled: Option<bool>,
    pub ssid_name: Option<Seq<char>>,
    pub wpa_key: Option<Seq<char>>,
}

impl View for SsidConfig {
    type V = SsidView;

    open spec fn view(&self) -> SsidView {
        SsidView {
            two_gig_ssid: self.two_gig_ssid,
            five_gig_ssid: self.five_gig_ssid,
            six_gig_ssid: self.six_gig_ssid,
            encryption_mode: snapshot::text_of(self.encryption_mode),
            encryption_version: snapshot::text_of(self.encryption_version),
            guest: self.guest,
            is_broadcast_enabled: self.is_broadcast_enabled,
            ssid_name: snapshot::text_of(self.ssid_name),
            wpa_key: snapshot::text_of(self.wpa_key),
        }
    }
}

/// The networks as values.
pub open spec fn ssid_views(ssids: Seq<SsidConfig>) -> Seq<SsidView> {
    ssids.map_values(|ssid: SsidConfig| ssid@)
}

/// The form in which a network is edited. The kind of encryption is carried
/// along, not edited.
#[derive(Debug)]
pub struct SsidForm {
    pub name: String,
    pub key: String,
    pub broadcast: bool,
    pub two: bool,
    pub five: bool,
    pub six: bool,
    pub guest: bool,
    pub encryption_mode: String,
    pub encryption_version: String,
}

/// A form as a value.
#[verifier::ext_equal]
pub struct SsidFormView {
    pub name: Seq<char>,
    pub key: Seq<char>,
    pub broadcast: bool,
    pub two: bool,
    pub five: bool,
    pub six: bool,
    pub guest: bool,
    pub encryption_mode: Seq<char>,
    pub encryption_version: Seq<char>,
}

impl View for SsidForm {
    type V = SsidFormView;

    open spec fn view(&self) -> SsidFormView {
        SsidFormView {
            name: self.name@,
            key: self.key@,
            broadcast: self.broadcast,
            two: self.two,
            five: self.five,
            six: self.six,
            guest: self.guest,
            encryption_mode: self.encryption_mode@,
            encryption_version: self.encryption_version@,
        }
    }
}

/// The forms as values.
pub open spec fn form_views(forms: Seq<SsidForm>) -> Seq<SsidFormView> {
    forms.map_values(|form: SsidForm| form@)
}

/// The text, or the empty one.
pub open spec fn or_empty(text: Option<Seq<char>>) -> Seq<char> {
    match text {
        Some(t) => t,
        None => Seq::empty(),
    }
}

/// The text, if it is not empty.
pub open spec fn if_any(text: Seq<char>) -> Option<Seq<char>> {
    if text.len() == 0 {
        None
    } else {
        Some(text)
    }
}

/// Whether a switch is known to be on.
pub open spec fn is_on(switch: Option<bool>) -> bool {
    switch == Some(true)
}

/// The form for a network: what the network does not tell is empty or off.
pub open spec fn form_of(ssid: SsidView) -> SsidFormView {
    SsidFormView {
        name: or_empty(ssid.ssid_name),
        key: or_empty(ssid.wpa_key),
        broadcast: is_on(ssid.is_broadcast_enabled),
        two: is_on(ssid.two_gig_ssid),
        five: is_on(ssid.five_gig_ssid),
        six: is_on(ssid.six_gig_ssid),
        guest: is_on(ssid.guest),
        encryption_mode: or_empty(ssid.encryption_mode),
        encryption_version: or_empty(ssid.encryption_version),
    }
}

/// The network that a form describes: everything is told but an encryption that
/// is not known.
pub open spec fn config_of(form: SsidFormView) -> SsidView {
    SsidView {
        two_gig_ssid: Some(form.two),
        five_gig_ssid: Some(form.five),
        six_gig_ssid: Some(form.six),
        encryption_mode: if_any(form.encryption_mode),
        encryption_version: if_any(form.encryption_version),
        guest: Some(form.guest),
        is_broadcast_enabled: Some(form.broadcast),
        ssid_name: Some(form.name),
        wpa_key: Some(form.key),
    }
}

/// The text, if it is not empty.
pub fn non_empty(value: String) -> (text: Option<String>)
    ensures
        snapshot::text_of(text) == if_any(value@),
{
    let none: bool = value.as_str().unicode_len() == 0;
    if none {
        None
    } else {
        Some(value)
    }
}

/// Whether a switch is known to be on.
fn switched_on(switch: Option<bool>) -> (on: bool)
    ensures
        on == is_on(switch),
{
    match switch {
        Some(on) => on,
        None => false,
    }
}

impl SsidForm {
    /// The form for a network.
    pub fn from_config(ssid: &SsidConfig) -> (form: Self)
        ensures
            form@ == form_of(ssid@),
    {
        SsidForm {
            name: copy_or_empty(&ssid.ssid_name),
            key: copy_or_empty(&ssid.wpa_key),
            broadcast: switched_on(ssid.is_broadcast_enabled),
            two: switched_on(ssid.two_gig_ssid),
            five: switched_on(ssid.five_gig_ssid),
            six: switched_on(ssid.six_gig_ssid),
            guest: switched_on(ssid.guest),
            encryption_mode: copy_or_empty(&ssid.encryption_mode),
            encryption_version: copy_or_empty(&ssid.encryption_version),
        }
    }

    /// The network that the form describes.
    pub fn to_config(&self) -> (ssid: SsidConfig)
        ensures
            ssid@ == config_of(self@),
    {
        SsidConfig {
            two_gig_ssid: Some(self.two),
            five_gig_ssid: Some(self.five),
            six_gig_ssid: Some(self.six),
            encryption_mode: non_empty(self.encryption_mode.clone()),
            encryption_version: non_empty(self.encryption_version.clone()),
            guest: Some(self.guest),
            is_broadcast_enabled: Some(self.broadcast),
            ssid_name: Some(self.name.clone()),
            wpa_key: Some(self.key.clone()),
        }
    }
}

/// The networks that the forms describe.
pub fn current_ssid_configs(forms: &Vec<SsidForm>) -> (ssids: Vec<SsidConfig>)
    ensures
        ssid_views(ssids@) == form_views(forms@).map_values(|form: SsidFormView| config_of(form)),
{
    let mut ssids: Vec<SsidConfig> = Vec::new();
    let mut at: usize = 0;
    while at < forms.len()
        invariant
            at <= forms@.len(),
            ssids@.len() == at,
            forall|i: int| 0 <= i < at ==> (#[trigger] ssids@[i])@ == config_of(forms@[i]@),
        decreases forms@.len() - at,
    {
        ssids.push(forms[at].to_config());
        at = at + 1;
    }
    assert(ssid_views(ssids@) =~= form_views(forms@).map_values(
        |form: SsidFormView| config_of(form),
    ));
    ssids
}

/// The forms for the networks.
pub fn fill_ssids(ssids: &Vec<SsidConfig>) -> (forms: Vec<SsidForm>)
    ensures
        form_views(forms@) == ssid_views(ssids@).map_values(|ssid: SsidView| form_of(ssid)),
{
    let mut forms: Vec<SsidForm> = Vec::new();
    let mut at: usize = 0;
    while at < ssids.len()
        invariant
            at <= ssids@.len(),
            forms@.len() == at,
            forall|i: int| 0 <= i < at ==> (#[trigger] forms@[i])@ == form_of(ssids@[i]@),
        decreases ssids@.len() - at,
    {
        forms.push(SsidForm::from_config(&ssids[at]));
        at = at + 1;
    }
    assert(form_views(forms@) =~= ssid_views(ssids@).map_values(|ssid: SsidView| form_of(ssid)));
    forms
}

/// A new network: encrypted as the template is, or as is usual, shown to
/// everyone, on the two common bands, and still without name and key.
pub open spec fn fresh_ssid(template: Option<SsidView>) -> SsidView {
    SsidView {
        two_gig_ssid: Some(true),
        five_gig_ssid: Some(true),
        six_gig_ssid: Some(false),
        encryption_mode: match template {
            Some(ssid) if ssid.encryption_mode is Some => ssid.encryption_mode,
            _ => Some("WPA"@),
        },
        encryption_version: match template {
            Some(ssid) if ssid.encryption_version is Some => ssid.encryption_version,
            _ => Some("WPA2"@),
        },
        guest: Some(false),
        is_broadcast_enabled: Some(true),
        ssid_name: Some(Seq::empty()),
        wpa_key: Some(Seq::empty()),
    }
}

/// An optional network as a value.
pub open spec fn optional_ssid(ssid: Option<&SsidConfig>) -> Option<SsidView> {
    match ssid {
        Some(s) => Some(s@),
        None => None,
    }
}

/// A new network, encrypted as the template is.
pub fn new_ssid_config(template: Option<&SsidConfig>) -> (ssid: SsidConfig)
    ensures
        ssid@ == fresh_ssid(optional_ssid(template)),
{
    let mode: Option<String> = match template {
        Some(ssid) => ssid.encryption_mode.clone(),
        None => None,
    };
    let version: Option<String> = match template {
        Some(ssid) => ssid.encryption_version.clone(),
        None => None,
    };
    SsidConfig {
        two_gig_ssid: Some(true),
        five_gig_ssid: Some(true),
        six_gig_ssid: Some(false),
        encryption_mode: match mode {
            Some(known) => Some(known),
            None => Some("WPA".to_owned()),
        },
        encryption_version: match version {
            Some(known) => Some(known),
            None => Some("WPA2".to_owned()),
        },
        guest: Some(false),
        is_broadcast_enabled: Some(true),
        ssid_name: Some(String::new()),
        wpa_key: Some(String::new()),
    }
}

/// The forms with a form for a new network at the end. It is encrypted as the
/// first network is.
pub open spec fn with_one_added(forms: Seq<SsidFormView>) -> Seq<SsidFormView> {
    let template = if forms.len() == 0 {
        None
    } else {
        Some(config_of(forms[0]))
    };
    forms.push(form_of(fresh_ssid(template)))
}

/// The forms with a form for a new network at the end.
pub fn add_ssid(forms: &Vec<SsidForm>) -> (longer: Vec<SsidForm>)
    ensures
        form_views(longer@) == with_one_added(form_views(forms@)),
{
    let mut ssids: Vec<SsidConfig> = current_ssid_configs(forms);
    let ghost before = ssid_views(ssids@);
    assert(before.len() == ssids@.len());
    let added: SsidConfig = if ssids.len() == 0 {
        new_ssid_config(None)
    } else {
        assert(ssids@[0]@ == before[0]);
        new_ssid_config(Some(&ssids[0]))
    };
    ssids.push(added);
    assert(ssid_views(ssids@) =~= before.push(added@));
    let longer: Vec<SsidForm> = fill_ssids(&ssids);
    assert(form_views(longer@) =~= with_one_added(form_views(forms@))) by {
        let wanted = with_one_added(form_views(forms@));
        assert forall|i: int| 0 <= i < wanted.len() implies #[trigger] form_views(longer@)[i]
            == wanted[i] by {
            if i < forms@.len() {
                a_form_survives_saving(forms@[i]@);
            }
        }
    }
    longer
}

/// The forms without the one at `index`; the forms as they are if there is none.
pub open spec fn with_one_removed(forms: Seq<SsidFormView>, index: int) -> Seq<SsidFormView> {
    if 0 <= index < forms.len() {
        forms.remove(index)
    } else {
        forms
    }
}

/// The forms without the one at `index`.
pub fn remove_ssid(forms: &Vec<SsidForm>, index: usize) -> (shorter: Vec<SsidForm>)
    ensures
        form_views(shorter@) == with_one_removed(form_views(forms@), index as int),
{
    let mut ssids: Vec<SsidConfig> = current_ssid_configs(forms);
    let ghost before = ssid_views(ssids@);
    assert(before.len() == ssids@.len());
    if index < ssids.len() {
        ssids.remove(index);
        assert(ssid_views(ssids@) =~= before.remove(index as int));
    }
    let shorter: Vec<SsidForm> = fill_ssids(&ssids);
    assert(form_views(shorter@) =~= with_one_removed(form_views(forms@), index as int)) by {
        let wanted = with_one_removed(form_views(forms@), index as int);
        assert forall|i: int| 0 <= i < wanted.len() implies #[trigger] form_views(shorter@)[i]
            == wanted[i] by {
            let from = if index < forms@.len() && i >= index {
                i + 1
            } else {
                i
            };
            a_form_survives_saving(forms@[from]@);
        }
    }
    shorter
}

/// The heading of a form: its place in the list, and the name if there is one.
pub open spec fn title_of(index: int, name: Option<Seq<char>>) -> Seq<char> {
    let place = "SSID "@ + text::decimal_nat((index + 1) as nat);
    match name {
        Some(known) if known.len() > 0 => place + ": "@ + known,
        _ => place,
    }
}

/// The heading of a form.
pub fn ssid_title(index: usize, ssid: &SsidConfig) -> (title: String)
    ensures
        title@ == title_of(index as int, ssid@.ssid_name),
{
    let place: String = concat2("SSID ", nat_to_text(index as u128 + 1).as_str());
    match &ssid.ssid_name {
        Some(name) => {
            if name.as_str().unicode_len() > 0 {
                concat3(place.as_str(), ": ", name.as_str())
            } else {
                place
            }
        },
        None => place,
    }
}

/// The switches of the radios.
#[derive(Debug, Clone, Copy)]
pub struct RadioSwitches {
    pub two: bool,
    pub five: bool,
    pub six: bool,
}

/// A band, if there is one, with its radio switched.
pub open spec fn switched(band: Option<BandConfig>, on: bool) -> Option<BandConfig> {
    match band {
        Some(b) => Some(BandConfig { is_radio_enabled: Some(on), ..b }),
        None => None,
    }
}

/// A band, if there is one, with its radio switched.
fn switch_radio(band: Option<BandConfig>, on: bool) -> (changed: Option<BandConfig>)
    ensures
        changed == switched(band, on),
{
    match band {
        Some(known) => {
            let mut changed: BandConfig = known;
            changed.is_radio_enabled = Some(on);
            Some(changed)
        },
        None => None,
    }
}

/// Whether a configuration is the one to save: what the gateway reported, with the
/// radios switched and the networks of the forms.
pub open spec fn is_built_from(
    built: WifiConfig,
    known: WifiConfig,
    radios: RadioSwitches,
    forms: Seq<SsidForm>,
) -> bool {
    &&& built.two_gig == switched(known.two_gig, radios.two)
    &&& built.five_gig == switched(known.five_gig, radios.five)
    &&& built.six_gig == switched(known.six_gig, radios.six)
    &&& built.band_steering == known.band_steering
    &&& built.ssids matches Some(ssids)
    &&& ssid_views(ssids@) == form_views(forms).map_values(|form: SsidFormView| config_of(form))
}

/// The Wi-Fi configuration to save: what the gateway reported, with the radios
/// switched and the networks of the forms. Without a report there is none.
pub fn build_wifi_config_from_ui(
    known: Option<&WifiConfig>,
    radios: RadioSwitches,
    forms: &Vec<SsidForm>,
) -> (outcome: Result<WifiConfig, String>)
    ensures
        known is None ==> {
            &&& outcome matches Err(error)
            &&& error@ == "Wi-Fi configuration is not available"@
        },
        known matches Some(wifi) ==> {
            &&& outcome matches Ok(built)
            &&& is_built_from(built, *wifi, radios, forms@)
        },
{
    match known {
        None => Err("Wi-Fi configuration is not available".to_owned()),
        Some(wifi) => {
            let copy: WifiConfig = wifi.clone();
            assert(copy@ == wifi@);
            Ok(
                WifiConfig {
                    two_gig: switch_radio(copy.two_gig, radios.two),
                    five_gig: switch_radio(copy.five_gig, radios.five),
                    six_gig: switch_radio(copy.six_gig, radios.six),
                    band_steering: copy.band_steering,
                    ssids: Some(current_ssid_configs(forms)),
                },
            )
        },
    }
}

/// What the Wi-Fi page shows. Where there is no value, the page stays as it is.
#[derive(Debug)]
pub struct WifiPage {
    pub two: Option<bool>,
    pub five: Option<bool>,
    pub six: Option<bool>,
    /// Whether there is a switch for the third radio at all.
    pub six_visible: Option<bool>,
    pub forms: Vec<SsidForm>,
}

/// Whether the radio of a band is on, if there is such a band.
pub open spec fn radio_of(band: Option<BandConfig>) -> Option<bool> {
    match band {
        Some(b) => Some(is_on(b.is_radio_enabled)),
        None => None,
    }
}

/// Whether the radio of a band is on, if there is such a band.
fn radio(band: &Option<BandConfig>) -> (on: Option<bool>)
    ensures
        on == radio_of(*band),
{
    match band {
        Some(known) => Some(switched_on(known.is_radio_enabled)),
        None => None,
    }
}

/// Whether a page shows a configuration: the switch of each radio that there is, and
/// a form for each network.
pub open spec fn is_page_of(page: WifiPage, known: WifiConfig) -> bool {
    &&& page.two == radio_of(known.two_gig)
    &&& page.five == radio_of(known.five_gig)
    &&& page.six == radio_of(known.six_gig)
    &&& page.six_visible == Some(known.six_gig is Some)
    &&& form_views(page.forms@) == match known.ssids {
        Some(ssids) => ssid_views(ssids@).map_values(|ssid: SsidView| form_of(ssid)),
        None => Seq::empty(),
    }
}

/// What the Wi-Fi page shows of a configuration: the switch of each radio that
/// there is, and a form for each network. Without a configuration there are no
/// forms and the switches stay as they are.
pub fn apply_wifi(wifi: Option<&WifiConfig>) -> (page: WifiPage)
    ensures
        wifi is None ==> {
            &&& page.two is None
            &&& page.five is None
            &&& page.six is None
            &&& page.six_visible is None
            &&& page.forms@.len() == 0
        },
        wifi matches Some(known) ==> is_page_of(page, *known),
{
    match wifi {
        None => WifiPage {
            two: None,
            five: None,
            six: None,
            six_visible: None,
            forms: Vec::new(),
        },
        Some(known) => {
            let forms: Vec<SsidForm> = match &known.ssids {
                Some(ssids) => fill_ssids(ssids),
                None => {
                    let none: Vec<SsidForm> = Vec::new();
                    assert(form_views(none@) =~= Seq::empty());
                    none
                },
            };
            WifiPage {
                two: radio(&known.two_gig),
                five: radio(&known.five_gig),
                six: radio(&known.six_gig),
                six_visible: Some(known.six_gig.is_some()),
                forms,
            }
        },
    }
}

/// A form that is saved and shown again is the same form.
pub proof fn a_form_survives_saving(form: SsidFormView)
    ensures
        form_of(config_of(form)) == form,
{
    assert(form_of(config_of(form)) =~= form);
}

/// Saving a network unedited only fills in what it did not tell; saving it again
/// changes nothing more.
pub proof fn saving_twice_is_saving_once(ssid: SsidView)
    ensures
        config_of(form_of(config_of(form_of(ssid)))) == config_of(form_of(ssid)),
{
    a_form_survives_saving(form_of(ssid));
}

/// What is saved is what is shown again: the forms of all networks, and the
/// switch of every radio that there is.
pub proof fn a_saved_page_is_shown_again(
    forms: Seq<SsidFormView>,
    band: Option<BandConfig>,
    on: bool,
)
    ensures
        forms.map_values(|form: SsidFormView| config_of(form)).map_values(
            |ssid: SsidView| form_of(ssid),
        ) == forms,
        band is Some ==> radio_of(switched(band, on)) == Some(on),
        band is None ==> switched(band, on) is None,
{
    let again = forms.map_values(|form: SsidFormView| config_of(form)).map_values(
        |ssid: SsidView| form_of(ssid),
    );
    assert forall|i: int| 0 <= i < forms.len() implies #[trigger] again[i] == forms[i] by {
        a_form_survives_saving(forms[i]);
    }
    assert(again =~= forms);
}

/// Removing the network that was added last leaves the networks from before.
pub proof fn removing_undoes_adding(forms: Seq<SsidFormView>)
    ensures
        with_one_removed(with_one_added(forms), forms.len() as int) == forms,
{
    assert(with_one_removed(with_one_added(forms), forms.len() as int) =~= forms);
}

} // verus!
