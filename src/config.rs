use vstd::prelude::*;

verus! {

/// Settings given on the command line; each overrides the stored one.
#[derive(Debug, Clone)]
pub struct Args {
    pub forge_api_key: Option<String>,
    pub dest_server_id: Option<String>,
    pub dest_host: Option<String>,
    pub dest_site_name: Option<String>,
    pub dest_db: Option<String>,
    pub source_folder: Option<String>,
    pub temp_folder: Option<String>,
    pub isolated: Option<bool>,
    pub user_name: Option<String>,
}

/// Stored settings, any of which may still be missing.
#[derive(Debug, Clone)]
pub struct Config {
    pub source_folder: Option<String>,
    pub forge_api_key: Option<String>,
    pub dest_server_id: Option<String>,
    pub dest_site_name: Option<String>,
    pub dest_db: Option<String>,
    pub dest_host: Option<String>,
    pub temp_folder: Option<String>,
    pub user_name: Option<String>,
    pub isolated: Option<bool>,
}

/// Complete settings for one migration run.
#[derive(Debug, Clone)]
pub struct FinalConfig {
    pub source_folder: String,
    pub forge_api_key: String,
    pub dest_server_id: String,
    pub dest_site_name: String,
    pub dest_db: String,
    pub dest_host: String,
    pub isolated: bool,
    pub user_name: Option<String>,
    pub temp_folder: String,
}

/// A question put to the user for a missing setting.
#[derive(Debug, Clone, Copy, PartialEq, Eq, Structural)]
pub enum Prompt {
    ForgeApiKey,
    SourceFolder,
    DestSiteName,
    DestHost,
    DestServerId,
    DestDb,
    TempFolder,
    Isolated,
    UserName,
}

impl Prompt {
    /// The question as the user reads it.
    pub open spec fn text_spec(self) -> Seq<char> {
        match self {
            Prompt::ForgeApiKey => "Please enter your forge api key"@,
            Prompt::SourceFolder => "Please enter source folder"@,
            Prompt::DestSiteName => "Please enter destination site name"@,
            Prompt::DestHost => "Please enter destination hostname"@,
            Prompt::DestServerId => "Please specify destination server ID"@,
            Prompt::DestDb => "Please specify destination database name"@,
            Prompt::TempFolder => "Please specify temp folder"@,
            Prompt::Isolated => "Do you want to create an isolated site?"@,
            Prompt::UserName => "Please specify the username for the isolated site"@,
        }
    }

    /// The question as the user reads it.
    pub fn text(&self) -> (r: &'static str)
        ensures
            r@ == self.text_spec(),
    {
        match self {
            Prompt::ForgeApiKey => "Please enter your forge api key",
            Prompt::SourceFolder => "Please enter source folder",
            Prompt::DestSiteName => "Please enter destination site name",
            Prompt::DestHost => "Please enter destination hostname",
            Prompt::DestServerId => "Please specify destination server ID",
            Prompt::DestDb => "Please specify destination database name",
            Prompt::TempFolder => "Please specify temp folder",
            Prompt::Isolated => "Do you want to create an isolated site?",
            Prompt::UserName => "Please specify the username for the isolated site",
        }
    }
}

/// `o` when it holds a value, else `base`.
pub open spec fn overridden<T>(base: Option<T>, o: Option<T>) -> Option<T> {
    if o is Some {
        o
    } else {
        base
    }
}

fn override_with<T>(base: Option<T>, o: Option<T>) -> (r: Option<T>)
    ensures
        r == overridden(base, o),
{
    match o {
        Some(v) => Some(v),
        None => base,
    }
}

impl Config {
    /// Settings with nothing filled in.
    pub fn default() -> (r: Config)
        ensures
            r.source_folder is None,
            r.forge_api_key is None,
            r.dest_server_id is None,
            r.dest_site_name is None,
            r.dest_db is None,
            r.dest_host is None,
            r.temp_folder is None,
            r.user_name is None,
            r.isolated is None,
    {
        Config {
            source_folder: None,
            forge_api_key: None,
            dest_server_id: None,
            dest_site_name: None,
            dest_db: None,
            dest_host: None,
            temp_folder: None,
            user_name: None,
            isolated: None,
        }
    }

    /// These settings with every one given in `args` taking the place of the
    /// stored one.
    pub fn from_args(self, args: Args) -> (r: Config)
        ensures
            r.source_folder == overridden(self.source_folder, args.source_folder),
            r.forge_api_key == overridden(self.forge_api_key, args.forge_api_key),
            r.dest_server_id == overridden(self.dest_server_id, args.dest_server_id),
            r.dest_site_name == overridden(self.dest_site_name, args.dest_site_name),
            r.dest_db == overridden(self.dest_db, args.dest_db),
            r.dest_host == overridden(self.dest_host, args.dest_host),
            r.temp_folder == overridden(self.temp_folder, args.temp_folder),
            r.user_name == overridden(self.user_name, args.user_name),
            r.isolated == overridden(self.isolated, args.isolated),
    {
        Config {
            source_folder: override_with(self.source_folder, args.source_folder),
            forge_api_key: override_with(self.forge_api_key, args.forge_api_key),
            dest_server_id: override_with(self.dest_server_id, args.dest_server_id),
            dest_site_name: override_with(self.dest_site_name, args.dest_site_name),
            dest_db: override_with(self.dest_db, args.dest_db),
            dest_host: override_with(self.dest_host, args.dest_host),
            temp_folder: override_with(self.temp_folder, args.temp_folder),
            user_name: override_with(self.user_name, args.user_name),
            isolated: override_with(self.isolated, args.isolated),
        }
    }

    /// Whether every setting that a run needs is present.
    pub open spec fn complete(&self) -> bool {
        &&& self.forge_api_key is Some
        &&& self.source_folder is Some
        &&& self.dest_site_name is Some
        &&& self.dest_host is Some
        &&& self.dest_server_id is Some
        &&& self.dest_db is Some
        &&& self.temp_folder is Some
        &&& self.isolated is Some
    }

    /// The question to ask next, in a fixed order: the first missing
    /// setting; once all are present, the user name of an isolated site if
    /// the user has just chosen isolation and none is set; else nothing.
    pub open spec fn next_prompt_spec(&self, isolated_prompted: bool) -> Option<Prompt> {
        if self.forge_api_key is None {
            Some(Prompt::ForgeApiKey)
        } else if self.source_folder is None {
            Some(Prompt::SourceFolder)
        } else if self.dest_site_name is None {
            Some(Prompt::DestSiteName)
        } else if self.dest_host is None {
            Some(Prompt::DestHost)
        } else if self.dest_server_id is None {
            Some(Prompt::DestServerId)
        } else if self.dest_db is None {
            Some(Prompt::DestDb)
        } else if self.temp_folder is None {
            Some(Prompt::TempFolder)
        } else if self.isolated is None {
            Some(Prompt::Isolated)
        } else if isolated_prompted && self.isolated == Some(true) && self.user_name is None {
            Some(Prompt::UserName)
        } else {
            None
        }
    }

    /// The question to ask next; `isolated_prompted` tells whether the
    /// isolation setting was just answered by the user.
    pub fn next_prompt(&self, isolated_prompted: bool) -> (r: Option<Prompt>)
        ensures
            r == self.next_prompt_spec(isolated_prompted),
            r is None ==> self.complete(),
    {
        if self.forge_api_key.is_none() {
            Some(Prompt::ForgeApiKey)
        } else if self.source_folder.is_none() {
            Some(Prompt::SourceFolder)
        } else if self.dest_site_name.is_none() {
            Some(Prompt::DestSiteName)
        } else if self.dest_host.is_none() {
            Some(Prompt::DestHost)
        } else if self.dest_server_id.is_none() {
            Some(Prompt::DestServerId)
        } else if self.dest_db.is_none() {
            Some(Prompt::DestDb)
        } else if self.temp_folder.is_none() {
            Some(Prompt::TempFolder)
        } else if self.isolated.is_none() {
            Some(Prompt::Isolated)
        } else if isolated_prompted && self.isolated == Some(true) && self.user_name.is_none() {
            Some(Prompt::UserName)
        } else {
            None
        }
    }

    /// Records the user's answer to a question; the answer to `Isolated` is
    /// a yes when it reads `true`.
    pub fn answer(&mut self, prompt: Prompt, text: String)
        ensures
            prompt == Prompt::ForgeApiKey ==> final(self).forge_api_key == Some(text),
            prompt == Prompt::SourceFolder ==> final(self).source_folder == Some(text),
            prompt == Prompt::DestSiteName ==> final(self).dest_site_name == Some(text),
            prompt == Prompt::DestHost ==> final(self).dest_host == Some(text),
            prompt == Prompt::DestServerId ==> final(self).dest_server_id == Some(text),
            prompt == Prompt::DestDb ==> final(self).dest_db == Some(text),
            prompt == Prompt::TempFolder ==> final(self).temp_folder == Some(text),
            prompt == Prompt::UserName ==> final(self).user_name == Some(text),
            prompt == Prompt::Isolated ==> final(self).isolated == Some(text@ == "true"@),
            prompt != Prompt::ForgeApiKey ==> final(self).forge_api_key == old(self).forge_api_key,
            prompt != Prompt::SourceFolder ==> final(self).source_folder == old(self).source_folder,
            prompt != Prompt::DestSiteName ==> final(self).dest_site_name == old(self).dest_site_name,
            prompt != Prompt::DestHost ==> final(self).dest_host == old(self).dest_host,
            prompt != Prompt::DestServerId ==> final(self).dest_server_id == old(self).dest_server_id,
            prompt != Prompt::DestDb ==> final(self).dest_db == old(self).dest_db,
            prompt != Prompt::TempFolder ==> final(self).temp_folder == old(self).temp_folder,
            prompt != Prompt::UserName ==> final(self).user_name == old(self).user_name,
            prompt != Prompt::Isolated ==> final(self).isolated == old(self).isolated,
    {
        match prompt {
            Prompt::ForgeApiKey => self.forge_api_key = Some(text),
            Prompt::SourceFolder => self.source_folder = Some(text),
            Prompt::DestSiteName => self.dest_site_name = Some(text),
            Prompt::DestHost => self.dest_host = Some(text),
            Prompt::DestServerId => self.dest_server_id = Some(text),
            Prompt::DestDb => self.dest_db = Some(text),
            Prompt::TempFolder => self.temp_folder = Some(text),
            Prompt::UserName => self.user_name = Some(text),
            Prompt::Isolated => {
                let yes = String::from_str("true");
                self.isolated = Some(text == yes);
            },
        }
    }

    /// The complete settings, when every needed one is present.
    pub fn finalize(self) -> (r: Option<FinalConfig>)
        ensures
            r is Some <==> self.complete(),
            match r {
                Some(f) => {
                    &&& self.source_folder == Some(f.source_folder)
                    &&& self.forge_api_key == Some(f.forge_api_key)
                    &&& self.dest_server_id == Some(f.dest_server_id)
                    &&& self.dest_site_name == Some(f.dest_site_name)
                    &&& self.dest_db == Some(f.dest_db)
                    &&& self.dest_host == Some(f.dest_host)
                    &&& self.temp_folder == Some(f.temp_folder)
                    &&& self.isolated == Some(f.isolated)
                    &&& self.user_name == f.user_name
                },
                None => true,
            },
    {
        match (
            self.source_folder,
            self.forge_api_key,
            self.dest_server_id,
            self.dest_site_name,
            self.dest_db,
            self.dest_host,
            self.temp_folder,
            self.isolated,
        ) {
            (
                Some(source_folder),
                Some(forge_api_key),
                Some(dest_server_id),
                Some(dest_site_name),
                Some(dest_db),
                Some(dest_host),
                Some(temp_folder),
                Some(isolated),
            ) => Some(
                FinalConfig {
                    source_folder,
                    forge_api_key,
                    dest_server_id,
                    dest_site_name,
                    dest_db,
                    dest_host,
                    isolated,
                    user_name: self.user_name,
                    temp_folder,
                },
            ),
            _ => None,
        }
    }
}

} // verus!
