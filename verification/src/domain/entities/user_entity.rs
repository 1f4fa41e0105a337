use vstd::prelude::*;

verus! {

/// A postal address, whose form depends on the country. All that the rest of
/// the library asks of one is its text for display.
pub trait Address {
    /// The text that `to_string` renders.
    spec fn display(&self) -> Seq<char>;

    fn to_string(&self) -> (text: String)
        ensures
            text@ == self.display(),
    ;
}

/// The text of an address that may be absent.
pub open spec fn address_display(address: Option<Box<dyn Address>>) -> Option<Seq<char>> {
    match address {
        Some(a) => Some(a.display()),
        None => None,
    }
}

/// What a user record holds: its three names as text, and the text of its
/// address where it has one.
pub struct UserEntityView {
    pub last_name: Seq<char>,
    pub first_name: Seq<char>,
    pub email: Seq<char>,
    pub address: Option<Seq<char>>,
}

/// A user as the caller gave it. Nothing is checked or changed on the way in,
/// and nothing can change it afterwards.
pub struct UserEntity {
    last_name: String,
    first_name: String,
    email: String,
    address: Option<Box<dyn Address>>,
}

impl View for UserEntity {
    type V = UserEntityView;

    closed spec fn view(&self) -> UserEntityView {
        UserEntityView {
            last_name: self.last_name@,
            first_name: self.first_name@,
            email: self.email@,
            address: address_display(self.address),
        }
    }
}

impl UserEntity {
    /// The line that `to_string` gives for a record.
    pub open spec fn sentence(user: UserEntityView) -> Seq<char> {
        "The user "@ + user.last_name + " "@ + user.first_name + " have email : "@ + user.email
            + "\n"@
    }

    pub fn new(
        last_name: String,
        first_name: String,
        email: String,
        address: Option<Box<dyn Address>>,
    ) -> (user: Self)
        ensures
            user@ == (UserEntityView {
                last_name: last_name@,
                first_name: first_name@,
                email: email@,
                address: address_display(address),
            }),
    {
        Self { last_name, first_name, email, address }
    }

    pub fn get_last_name(&self) -> (last_name: &String)
        ensures
            last_name@ == self@.last_name,
    {
        &self.last_name
    }

    pub fn get_first_name(&self) -> (first_name: &String)
        ensures
            first_name@ == self@.first_name,
    {
        &self.first_name
    }

    pub fn get_email(&self) -> (email: &String)
        ensures
            email@ == self@.email,
    {
        &self.email
    }

    pub fn get_address(&self) -> (address: Option<&Box<dyn Address>>)
        ensures
            address is Some == self@.address is Some,
            address matches Some(a) ==> self@.address == Some(a.display()),
    {
        self.address.as_ref()
    }

    /// One line that names the user and the email, ended by a line feed.
    pub fn to_string(&self) -> (text: String)
        ensures
            text@ == Self::sentence(self@),
    {
        let mut text = String::from_str("The user ");
        text.append(self.last_name.as_str());
        text.append(" ");
        text.append(self.first_name.as_str());
        text.append(" have email : ");
        text.append(self.email.as_str());
        text.append("\n");
        text
    }
}

} // verus!
