//! What editing a Wi-Fi configuration promises: what is shown, what is saved, and
//! what stays as it is.

use crate::models::{BandConfig, SsidConfig, WifiConfig};
use crate::text;
use crate::wifi::{self, RadioSwitches, SsidForm, SsidFormView, SsidView, WifiPage};
use vstd::prelude::*;
use vstd::string::*;

verus! {

/// Whether two band configurations agree in everything but the switch of the radio.
pub open spec fn same_but_for_the_radio(one: BandConfig, other: BandConfig) -> bool {
    &&& one.airtime_fairness == other.airtime_fairness
    &&& one.channel == other.channel
    &&& one.channel_bandwidth == other.channel_bandwidth
    &&& one.is_mu_mimo_enabled == other.is_mu_mimo_enabled
    &&& one.is_wmm_enabled == other.is_wmm_enabled
    &&& one.max_clients == other.max_clients
    &&& one.mode == other.mode
    &&& one.transmission_power == other.transmission_power
}

/// Whether `after` is what a save with the radio switched to `on` makes of a band:
/// there is one exactly if there was one, its radio is as switched, and the rest of
/// it is as it was.
pub open spec fn only_switched(
    before: Option<BandConfig>,
    on: bool,
    after: Option<BandConfig>,
) -> bool {
    &&& before is Some <==> after is Some
    &&& before is Some ==> same_but_for_the_radio(before->0, after->0)
    &&& after is Some ==> after->0.is_radio_enabled == Some(on)
}

/// Switching a radio changes nothing of its band but the switch.
pub proof fn switching_a_radio_changes_nothing_else(band: Option<BandConfig>, on: bool)
    ensures
        only_switched(band, on, wifi::switched(band, on)),
{
}

/// Whether a network is the one that a form describes, member by member.
pub open spec fn network_is_as_in_form(ssid: SsidConfig, form: SsidForm) -> bool {
    &&& ssid.ssid_name is Some && ssid.ssid_name->0@ == form.name@
    &&& ssid.wpa_key is Some && ssid.wpa_key->0@ == form.key@
    &&& ssid.is_broadcast_enabled == Some(form.broadcast)
    &&& ssid.two_gig_ssid == Some(form.two)
    &&& ssid.five_gig_ssid == Some(form.five)
    &&& ssid.six_gig_ssid == Some(form.six)
    &&& ssid.guest == Some(form.guest)
    &&& form.encryption_mode@.len() > 0 ==> {
        &&& ssid.encryption_mode is Some
        &&& ssid.encryption_mode->0@ == form.encryption_mode@
    }
    &&& form.encryption_mode@.len() == 0 ==> ssid.encryption_mode is None
    &&& form.encryption_version@.len() > 0 ==> {
        &&& ssid.encryption_version is Some
        &&& ssid.encryption_version->0@ == form.encryption_version@
    }
    &&& form.encryption_version@.len() == 0 ==> ssid.encryption_version is None
}

/// A save keeps of each reported band everything but the switch of its radio, which
/// is the one of that band; it makes up no band and keeps the steering; and it has
/// one network for each form, in order and member by member.
pub proof fn a_save_changes_only_what_was_edited(
    built: WifiConfig,
    known: WifiConfig,
    radios: RadioSwitches,
    forms: Seq<SsidForm>,
)
    requires
        wifi::is_built_from(built, known, radios, forms),
    ensures
        only_switched(known.two_gig, radios.two, built.two_gig),
        only_switched(known.five_gig, radios.five, built.five_gig),
        only_switched(known.six_gig, radios.six, built.six_gig),
        built.band_steering == known.band_steering,
        built.ssids is Some,
        built.ssids->0@.len() == forms.len(),
        forall|i: int|
            0 <= i < forms.len() ==> network_is_as_in_form(
                #[trigger] built.ssids->0@[i],
                forms[i],
            ),
{
    let ssids = built.ssids->0@;
    assert(ssids.len() == wifi::ssid_views(ssids).len());
    assert forall|i: int| 0 <= i < forms.len() implies network_is_as_in_form(
        #[trigger] ssids[i],
        forms[i],
    ) by {
        assert(wifi::ssid_views(ssids)[i] == ssids[i]@);
        assert(wifi::form_views(forms)[i] == forms[i]@);
        assert(ssids[i]@ == wifi::config_of(forms[i]@));
    }
}

/// Whether a form shows a network, member by member: a text that is told as it is, a
/// switch that is told as it is, and what is not told empty or off.
pub open spec fn form_is_as_told(form: SsidFormView, ssid: SsidConfig) -> bool {
    &&& ssid.ssid_name matches Some(told) ==> form.name == told@
    &&& ssid.ssid_name is None ==> form.name.len() == 0
    &&& ssid.wpa_key matches Some(told) ==> form.key == told@
    &&& ssid.wpa_key is None ==> form.key.len() == 0
    &&& ssid.encryption_mode matches Some(told) ==> form.encryption_mode == told@
    &&& ssid.encryption_mode is None ==> form.encryption_mode.len() == 0
    &&& ssid.encryption_version matches Some(told) ==> form.encryption_version == told@
    &&& ssid.encryption_version is None ==> form.encryption_version.len() == 0
    &&& ssid.is_broadcast_enabled matches Some(on) ==> form.broadcast == on
    &&& ssid.is_broadcast_enabled is None ==> !form.broadcast
    &&& ssid.two_gig_ssid matches Some(on) ==> form.two == on
    &&& ssid.two_gig_ssid is None ==> !form.two
    &&& ssid.five_gig_ssid matches Some(on) ==> form.five == on
    &&& ssid.five_gig_ssid is None ==> !form.five
    &&& ssid.six_gig_ssid matches Some(on) ==> form.six == on
    &&& ssid.six_gig_ssid is None ==> !form.six
    &&& ssid.guest matches Some(on) ==> form.guest == on
    &&& ssid.guest is None ==> !form.guest
}

/// The form for a network shows whatever the network tells, each member for itself
/// and whatever the others are.
pub proof fn a_form_shows_what_the_network_tells(ssid: SsidConfig)
    ensures
        form_is_as_told(wifi::form_of(ssid@), ssid),
{
}

/// Whether a saved network keeps what a network told.
pub open spec fn keeps_what_was_told(saved: SsidView, ssid: SsidView) -> bool {
    &&& ssid.ssid_name is Some ==> saved.ssid_name == ssid.ssid_name
    &&& ssid.wpa_key is Some ==> saved.wpa_key == ssid.wpa_key
    &&& ssid.is_broadcast_enabled is Some ==> saved.is_broadcast_enabled
        == ssid.is_broadcast_enabled
    &&& ssid.two_gig_ssid is Some ==> saved.two_gig_ssid == ssid.two_gig_ssid
    &&& ssid.five_gig_ssid is Some ==> saved.five_gig_ssid == ssid.five_gig_ssid
    &&& ssid.six_gig_ssid is Some ==> saved.six_gig_ssid == ssid.six_gig_ssid
    &&& ssid.guest is Some ==> saved.guest == ssid.guest
    &&& ssid.encryption_mode matches Some(told) ==> (told.len() > 0
        ==> saved.encryption_mode == ssid.encryption_mode)
    &&& ssid.encryption_mode is None ==> saved.encryption_mode is None
    &&& ssid.encryption_version matches Some(told) ==> (told.len() > 0
        ==> saved.encryption_version == ssid.encryption_version)
    &&& ssid.encryption_version is None ==> saved.encryption_version is None
}

/// Saving a network without editing it keeps every member that it told.
pub proof fn an_unedited_network_keeps_what_it_told(ssid: SsidView)
    ensures
        keeps_what_was_told(wifi::config_of(wifi::form_of(ssid)), ssid),
{
    lemma_switch(ssid.is_broadcast_enabled);
    lemma_switch(ssid.two_gig_ssid);
    lemma_switch(ssid.five_gig_ssid);
    lemma_switch(ssid.six_gig_ssid);
    lemma_switch(ssid.guest);
}

/// A switch that is known is on exactly if it says so.
proof fn lemma_switch(switch: Option<bool>)
    ensures
        switch is Some ==> switch == Some(wifi::is_on(switch)),
{
    if let Some(on) = switch {
        assert(on || !on);
        assert(wifi::is_on(switch) == on);
    }
}

proof fn lemma_band_kept(band: BandConfig)
    requires
        band.is_radio_enabled is Some,
    ensures
        wifi::switched(Some(band), wifi::is_on(band.is_radio_enabled)) == Some(band),
{
    lemma_switch(band.is_radio_enabled);
}

/// A page shows the switch of each radio as told, offers the third radio exactly if
/// there is one, and has a form for each network, in order and member by member.
pub proof fn a_page_shows_the_configuration(page: WifiPage, known: WifiConfig)
    requires
        wifi::is_page_of(page, known),
    ensures
        page.two is Some <==> known.two_gig is Some,
        page.five is Some <==> known.five_gig is Some,
        page.six is Some <==> known.six_gig is Some,
        known.two_gig matches Some(band) ==> (page.two->0 <==> band.is_radio_enabled == Some(true)),
        known.five_gig matches Some(band) ==> (page.five->0 <==> band.is_radio_enabled == Some(
            true,
        )),
        known.six_gig matches Some(band) ==> (page.six->0 <==> band.is_radio_enabled == Some(true)),
        page.six_visible is Some,
        page.six_visible->0 <==> known.six_gig is Some,
        known.ssids is None ==> page.forms@.len() == 0,
        known.ssids matches Some(ssids) ==> {
            &&& page.forms@.len() == ssids@.len()
            &&& forall|i: int|
                0 <= i < ssids@.len() ==> form_is_as_told((#[trigger] page.forms@[i])@, ssids@[i])
        },
{
    assert(page.forms@.len() == wifi::form_views(page.forms@).len());
    if let Some(ssids) = known.ssids {
        assert forall|i: int| 0 <= i < ssids@.len() implies form_is_as_told(
            (#[trigger] page.forms@[i])@,
            ssids@[i],
        ) by {
            assert(wifi::form_views(page.forms@)[i] == page.forms@[i]@);
            assert(wifi::ssid_views(ssids@)[i] == ssids@[i]@);
            a_form_shows_what_the_network_tells(ssids@[i]);
        }
    }
}

/// Saving a page as it is shown keeps every network and whatever it told, and the
/// switch of every radio that told one.
pub proof fn an_unedited_page_keeps_what_was_told(
    page: WifiPage,
    known: WifiConfig,
    radios: RadioSwitches,
    built: WifiConfig,
)
    requires
        wifi::is_page_of(page, known),
        page.two is Some ==> page.two == Some(radios.two),
        page.five is Some ==> page.five == Some(radios.five),
        page.six is Some ==> page.six == Some(radios.six),
        wifi::is_built_from(built, known, radios, page.forms@),
    ensures
        known.two_gig matches Some(band) ==> (band.is_radio_enabled is Some ==> built.two_gig
            == Some(band)),
        known.five_gig matches Some(band) ==> (band.is_radio_enabled is Some ==> built.five_gig
            == Some(band)),
        known.six_gig matches Some(band) ==> (band.is_radio_enabled is Some ==> built.six_gig
            == Some(band)),
        known.ssids matches Some(ssids) ==> {
            &&& built.ssids is Some
            &&& built.ssids->0@.len() == ssids@.len()
            &&& forall|i: int|
                0 <= i < ssids@.len() ==> keeps_what_was_told(
                    (#[trigger] built.ssids->0@[i])@,
                    ssids@[i]@,
                )
        },
{
    if let Some(band) = known.two_gig {
        if band.is_radio_enabled is Some {
            lemma_band_kept(band);
        }
    }
    if let Some(band) = known.five_gig {
        if band.is_radio_enabled is Some {
            lemma_band_kept(band);
        }
    }
    if let Some(band) = known.six_gig {
        if band.is_radio_enabled is Some {
            lemma_band_kept(band);
        }
    }
    if let Some(ssids) = known.ssids {
        let saved = built.ssids->0@;
        let forms = page.forms@;
        assert(saved.len() == wifi::ssid_views(saved).len());
        assert(forms.len() == wifi::form_views(forms).len());
        assert forall|i: int| 0 <= i < ssids@.len() implies keeps_what_was_told(
            (#[trigger] saved[i])@,
            ssids@[i]@,
        ) by {
            assert(wifi::ssid_views(saved)[i] == saved[i]@);
            assert(wifi::form_views(forms)[i] == forms[i]@);
            assert(wifi::ssid_views(ssids@)[i] == ssids@[i]@);
            an_unedited_network_keeps_what_it_told(ssids@[i]@);
        }
    }
}

/// A form for a new network has no name and no key yet, is shown to everyone, is on
/// the two common bands only and for no guests; its encryption is the template's,
/// where the template tells one, and else the usual one.
pub proof fn a_new_network_starts_open_to_editing(template: Option<SsidView>)
    ensures
        ({
            let form = wifi::form_of(wifi::fresh_ssid(template));
            &&& form.name.len() == 0
            &&& form.key.len() == 0
            &&& form.broadcast
            &&& form.two
            &&& form.five
            &&& !form.six
            &&& !form.guest
            &&& (template is Some && template->0.encryption_mode is Some) ==> form.encryption_mode
                == template->0.encryption_mode->0
            &&& (template is None || template->0.encryption_mode is None) ==> form.encryption_mode
                == "WPA"@
            &&& (template is Some && template->0.encryption_version is Some)
                ==> form.encryption_version == template->0.encryption_version->0
            &&& (template is None || template->0.encryption_version is None)
                ==> form.encryption_version == "WPA2"@
        }),
{
}

/// Adding a network keeps the forms that there are and puts one blank form behind
/// them, encrypted as the first network is.
pub proof fn adding_keeps_the_networks(forms: Seq<SsidFormView>)
    ensures
        ({
            let longer = wifi::with_one_added(forms);
            let added = longer[forms.len() as int];
            &&& longer.len() == forms.len() + 1
            &&& forall|i: int| 0 <= i < forms.len() ==> #[trigger] longer[i] == forms[i]
            &&& added.name.len() == 0 && added.key.len() == 0
            &&& added.broadcast && added.two && added.five && !added.six && !added.guest
            &&& forms.len() > 0 && forms[0].encryption_mode.len() > 0 ==> added.encryption_mode
                == forms[0].encryption_mode
            &&& forms.len() > 0 && forms[0].encryption_version.len() > 0
                ==> added.encryption_version == forms[0].encryption_version
            &&& forms.len() == 0 || forms[0].encryption_mode.len() == 0 ==> added.encryption_mode
                == "WPA"@
            &&& forms.len() == 0 || forms[0].encryption_version.len() == 0
                ==> added.encryption_version == "WPA2"@
        }),
{
}

/// Removing a network keeps the others in their order; where there is none at that
/// place, all stay.
pub proof fn removing_keeps_the_other_networks(forms: Seq<SsidFormView>, index: int)
    requires
        index >= 0,
    ensures
        ({
            let shorter = wifi::with_one_removed(forms, index);
            &&& index < forms.len() ==> shorter.len() == forms.len() - 1
            &&& index >= forms.len() ==> shorter.len() == forms.len()
            &&& forall|i: int|
                0 <= i < forms.len() && i < index ==> #[trigger] shorter[i] == forms[i]
            &&& forall|i: int| index < i < forms.len() ==> shorter[i - 1] == #[trigger] forms[i]
        }),
{
    if index < forms.len() {
        let shorter = wifi::with_one_removed(forms, index);
        assert forall|i: int| index < i < forms.len() implies shorter[i - 1] == #[trigger] forms[i]
            by {
            assert(forms.remove(index)[i - 1] == forms[i]);
        }
    }
}

/// A heading counts the networks from one, and goes on with the name exactly if there
/// is a name to show.
pub proof fn a_heading_counts_from_one(index: nat, name: Seq<char>)
    ensures
        wifi::title_of(index as int, None) == "SSID "@ + text::decimal(index as int + 1),
        name.len() == 0 ==> wifi::title_of(index as int, Some(name)) == wifi::title_of(
            index as int,
            None,
        ),
        name.len() > 0 ==> wifi::title_of(index as int, Some(name)) == wifi::title_of(
            index as int,
            None,
        ) + ": "@ + name,
{
}

} // verus!
