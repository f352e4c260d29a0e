//! Text sent to users on Telegram.
use vstd::prelude::*;
use vstd::string::*;

verus! {

/// The direct message that delivers a group invite link.
pub open spec fn invite_message(link: Seq<char>) -> Seq<char> {
    "<b>Oioi, falei que era facinho! aqui tá seu link de convite</b>"@ + "\n\n"@
        + "<a href=\""@ + link + "\">Clique aqui pra entrar no grupo</a>"@
}

pub fn make_invite_message(link: String) -> (r: String)
    ensures
        r@ == invite_message(link@),
{
    let mut text = String::from_str("<b>Oioi, falei que era facinho! aqui tá seu link de convite</b>");
    text.append("\n\n");
    text.append("<a href=\"");
    text.append(link.as_str());
    text.append("\">Clique aqui pra entrar no grupo</a>");
    text
}

} // verus!
