use vstd::prelude::*;
use vstd::string::*;
use crate::model::User;
use crate::text::{decimal, push_decimal};

verus! {

/// Where the avatar of an account is served from: empty for an account
/// without an avatar.
pub open spec fn avatar_url(user: User) -> Seq<char> {
    match user.avatar {
        Some(hash) => "https://cdn.discordapp.com/avatars/"@ + decimal(user.id.0 as nat) + "/"@
            + hash@ + ".png"@,
        None => Seq::<char>::empty(),
    }
}

/// Where the avatar of an account is served from.
pub fn get_avatar_url(user: &User) -> (url: String)
    ensures
        url@ == avatar_url(*user),
{
    match &user.avatar {
        Some(hash) => {
            let mut url = String::new();
            url.append("https://cdn.discordapp.com/avatars/");
            push_decimal(&mut url, user.id.0);
            url.append("/");
            url.append(hash.as_str());
            url.append(".png");
            assert(url@ =~= avatar_url(*user));
            url
        },
        None => String::new(),
    }
}

} // verus!
