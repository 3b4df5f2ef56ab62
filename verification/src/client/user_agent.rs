//! User agents optimised for the Modrinth API.

use vstd::prelude::*;
use vstd::string::StringExecFns;

verus! {

/// The character sequence a user agent renders to: each optional field
/// contributes its bracketed segment only when it is present.
pub open spec fn render_spec(
    project_name: Seq<char>,
    version: Option<Seq<char>>,
    author: Option<Seq<char>>,
    contact: Option<Seq<char>>,
) -> Seq<char> {
    (match author {
        Some(a) => a + "/"@,
        None => Seq::<char>::empty(),
    }) + project_name + (match version {
        Some(v) => "/"@ + v,
        None => Seq::<char>::empty(),
    }) + (match contact {
        Some(c) => " ("@ + c + ")"@,
        None => Seq::<char>::empty(),
    })
}

/// A user agent for the Modrinth API.
/// You can view the Modrinth guidelines for user agents
/// [here](https://docs.modrinth.com/api/#user-agents).
///
/// Try to fill out as many fields as possible to avoid having your traffic
/// blocked.  Build one with [`UserAgent::builder`].
pub struct UserAgent {
    /// The name of the project, e.g. `amerinth`.
    project_name: String,
    /// The version of the project, e.g. `0.1.0`.
    version: Option<String>,
    /// The author of the project, ideally a GitHub username.
    author: Option<String>,
    /// Contact information, ideally an email address or a website.
    contact: Option<String>,
}

impl UserAgent {
    pub closed spec fn spec_project_name(&self) -> Seq<char> {
        self.project_name@
    }

    pub closed spec fn spec_version(&self) -> Option<Seq<char>> {
        match self.version {
            Some(v) => Some(v@),
            None => None,
        }
    }

    pub closed spec fn spec_author(&self) -> Option<Seq<char>> {
        match self.author {
            Some(a) => Some(a@),
            None => None,
        }
    }

    pub closed spec fn spec_contact(&self) -> Option<Seq<char>> {
        match self.contact {
            Some(c) => Some(c@),
            None => None,
        }
    }

    /// The full rendered form of this user agent.
    pub open spec fn spec_render(&self) -> Seq<char> {
        render_spec(
            self.spec_project_name(),
            self.spec_version(),
            self.spec_author(),
            self.spec_contact(),
        )
    }

    /// Start building a user agent; only the project name is required.
    pub fn builder(project_name: &str) -> (r: UserAgentBuilder)
        ensures
            r.spec_project_name() == project_name@,
            r.spec_version() is None,
            r.spec_author() is None,
            r.spec_contact() is None,
    {
        UserAgentBuilder {
            project_name: project_name.to_owned(),
            version: None,
            author: None,
            contact: None,
        }
    }

    /// Render the user agent to the `{author/}{project_name}{/version}{ (contact)}`
    /// form the Modrinth API expects.
    pub fn render(&self) -> (r: String)
        ensures
            r@ == self.spec_render(),
    {
        let mut s = String::new();
        if let Some(a) = &self.author {
            s.append(a.as_str());
            s.append("/");
        }
        s.append(self.project_name.as_str());
        if let Some(v) = &self.version {
            s.append("/");
            s.append(v.as_str());
        }
        if let Some(c) = &self.contact {
            s.append(" (");
            s.append(c.as_str());
            s.append(")");
        }
        proof {
            assert(s@ =~= self.spec_render());
        }
        s
    }
}

/// Builder for [`UserAgent`]; every setter consumes and returns the builder.
pub struct UserAgentBuilder {
    project_name: String,
    version: Option<String>,
    author: Option<String>,
    contact: Option<String>,
}

impl UserAgentBuilder {
    pub closed spec fn spec_project_name(&self) -> Seq<char> {
        self.project_name@
    }

    pub closed spec fn spec_version(&self) -> Option<Seq<char>> {
        match self.version {
            Some(v) => Some(v@),
            None => None,
        }
    }

    pub closed spec fn spec_author(&self) -> Option<Seq<char>> {
        match self.author {
            Some(a) => Some(a@),
            None => None,
        }
    }

    pub closed spec fn spec_contact(&self) -> Option<Seq<char>> {
        match self.contact {
            Some(c) => Some(c@),
            None => None,
        }
    }

    /// Set the project version.
    pub fn version(self, version: &str) -> (r: Self)
        ensures
            r.spec_project_name() == self.spec_project_name(),
            r.spec_version() == Some(version@),
            r.spec_author() == self.spec_author(),
            r.spec_contact() == self.spec_contact(),
    {
        UserAgentBuilder { version: Some(version.to_owned()), ..self }
    }

    /// Set the project author.
    pub fn author(self, author: &str) -> (r: Self)
        ensures
            r.spec_project_name() == self.spec_project_name(),
            r.spec_version() == self.spec_version(),
            r.spec_author() == Some(author@),
            r.spec_contact() == self.spec_contact(),
    {
        UserAgentBuilder { author: Some(author.to_owned()), ..self }
    }

    /// Set the contact information.
    pub fn contact(self, contact: &str) -> (r: Self)
        ensures
            r.spec_project_name() == self.spec_project_name(),
            r.spec_version() == self.spec_version(),
            r.spec_author() == self.spec_author(),
            r.spec_contact() == Some(contact@),
    {
        UserAgentBuilder { contact: Some(contact.to_owned()), ..self }
    }

    /// Finish the builder.
    pub fn build(self) -> (r: UserAgent)
        ensures
            r.spec_project_name() == self.spec_project_name(),
            r.spec_version() == self.spec_version(),
            r.spec_author() == self.spec_author(),
            r.spec_contact() == self.spec_contact(),
    {
        UserAgent {
            project_name: self.project_name,
            version: self.version,
            author: self.author,
            contact: self.contact,
        }
    }
}

} // verus!
