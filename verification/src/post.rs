//! Uploads, from the fields of a form to a file with its metadata.

use crate::address::SocketAddress;
use crate::expire::{date_in, decay_ends, decayed, expires, scales_within};
use crate::expire::{CubicDecay, CubicDecayView, ExpireStrategy, ExpireStrategyView};
use crate::outside::{detectable, has_no_control, is_device_name, is_windows_safe, media_type};
use crate::outside::{only_full_stops, sanitised, xxh3_128_of};
use crate::outside::{detect_media_type, parse_media_type, sanitise_name};
use crate::settings::{text_in, Settings, SettingsView};
use crate::time::{in_time_range, DateOverflow, UtcTime};
use crate::token::{UserToken, XXH3_128Hash};
use vstd::prelude::*;
use vstd::utf8::encode_utf8;

verus! {

/// Whether a file may bear this name, on Windows and elsewhere: it is not empty, takes
/// at most 255 bytes, has no forbidden and no control character, is not made of full
/// stops alone and does not name a device.
pub open spec fn is_safe_name(name: Seq<char>) -> bool {
    &&& name.len() > 0
    &&& encode_utf8(name).len() <= 255
    &&& is_windows_safe(name)
    &&& has_no_control(name)
    &&& !only_full_stops(name)
    &&& !is_device_name(name)
}

/// Makes a name that is safe for files on Windows and elsewhere.
pub fn sanitize_file_name(name: &str) -> (safe: String)
    ensures
        safe@ == sanitised(name@, true),
        is_safe_name(safe@),
{
    sanitise_name(name, true)
}

/// What a client has said of a file so far.
#[derive(Debug)]
pub struct PostDataBuilder {
    pub secret: Option<bool>,
    pub file_name: Option<String>,
    pub file_size: Option<usize>,
    pub file_data: Option<Vec<u8>>,
    pub content_encoding: Option<String>,
    pub nsfw: Option<bool>,
    pub expire_strategy: Option<ExpireStrategy>,
    pub uploader_ip: SocketAddress,
    pub uploader_ua: String,
}

/// The values in a [`PostDataBuilder`].
#[verifier::ext_equal]
pub struct BuilderView {
    pub secret: Option<bool>,
    pub file_name: Option<Seq<char>>,
    pub file_size: Option<usize>,
    pub file_data: Option<Seq<u8>>,
    pub content_encoding: Option<Seq<char>>,
    pub nsfw: Option<bool>,
    pub expire_strategy: Option<ExpireStrategyView>,
    pub uploader_ip: SocketAddress,
    pub uploader_ua: Seq<char>,
}

impl View for PostDataBuilder {
    type V = BuilderView;

    open spec fn view(&self) -> BuilderView {
        BuilderView {
            secret: self.secret,
            file_name: text_in(self.file_name),
            file_size: self.file_size,
            file_data: match self.file_data {
                Some(data) => Some(data@),
                None => None,
            },
            content_encoding: text_in(self.content_encoding),
            nsfw: self.nsfw,
            expire_strategy: match self.expire_strategy {
                Some(strategy) => Some(strategy@),
                None => None,
            },
            uploader_ip: self.uploader_ip,
            uploader_ua: self.uploader_ua@,
        }
    }
}

/// Why no upload can be made of what a client has said.
#[derive(Debug, Clone, Copy, PartialEq, Eq, Structural)]
pub enum BuilderError {
    MissingFileName,
    MissingFileData,
    OverflowingExpirationSpan(DateOverflow),
    MIMEError,
}

/// A file to be stored, with all that is to be known of it.
#[derive(Debug)]
pub struct PostData {
    pub secret: bool,
    pub file_name: String,
    pub file_size: usize,
    pub file_mime: String,
    pub file_data: Vec<u8>,
    pub file_hash: XXH3_128Hash,
    pub nsfw: bool,
    pub creation_date: UtcTime,
    pub expiration_date: UtcTime,
    pub uploader_ip: SocketAddress,
    pub uploader_ua: String,
    pub access_token: UserToken,
}

/// The values in a [`PostData`].
#[verifier::ext_equal]
pub struct PostDataView {
    pub secret: bool,
    pub file_name: Seq<char>,
    pub file_size: usize,
    pub file_mime: Seq<char>,
    pub file_data: Seq<u8>,
    pub file_hash: u128,
    pub nsfw: bool,
    pub creation_date: int,
    pub expiration_date: int,
    pub uploader_ip: SocketAddress,
    pub uploader_ua: Seq<char>,
    pub access_token: Seq<u8>,
}

impl View for PostData {
    type V = PostDataView;

    open spec fn view(&self) -> PostDataView {
        PostDataView {
            secret: self.secret,
            file_name: self.file_name@,
            file_size: self.file_size,
            file_mime: self.file_mime@,
            file_data: self.file_data@,
            file_hash: self.file_hash@,
            nsfw: self.nsfw,
            creation_date: self.creation_date@,
            expiration_date: self.expiration_date@,
            uploader_ip: self.uploader_ip,
            uploader_ua: self.uploader_ua@,
            access_token: self.access_token@,
        }
    }
}

/// The values in the outcome of an upload's construction.
pub open spec fn post_in(post: Result<PostData, BuilderError>) -> Result<PostDataView, BuilderError> {
    match post {
        Ok(p) => Ok(p@),
        Err(e) => Err(e),
    }
}

/// How the server itself limits the lifespan of files, by these settings.
pub open spec fn server_decay(settings: SettingsView) -> CubicDecayView {
    CubicDecayView { min_age: settings.min_file_age, max_age: settings.max_file_age, power: 3 }
}

/// How the server itself limits the lifespan of files: settled by the first upload, and
/// kept from then on.
#[derive(Debug, Clone, Copy)]
pub struct ServerStrategy {
    pub decay: Option<CubicDecay>,
}

impl View for ServerStrategy {
    type V = Option<CubicDecayView>;

    open spec fn view(&self) -> Option<CubicDecayView> {
        match self.decay {
            Some(decay) => Some(decay@),
            None => None,
        }
    }
}

/// The decay that is kept: the one that is settled, or else that of the settings.
pub open spec fn settled(strategy: Option<CubicDecayView>, settings: SettingsView) -> CubicDecayView {
    match strategy {
        Some(decay) => decay,
        None => server_decay(settings),
    }
}

impl ServerStrategy {
    /// Nothing is settled yet.
    pub fn new() -> (strategy: Self)
        ensures
            strategy@ is None,
    {
        ServerStrategy { decay: None }
    }

    /// The decay that is settled. If there is none yet, that of the settings is.
    pub fn get_or_init(&mut self, settings: &Settings) -> (decay: CubicDecay)
        ensures
            decay@ == settled(old(self)@, settings@),
            final(self)@ == Some(decay@),
    {
        match self.decay {
            Some(decay) => decay,
            None => {
                let decay = CubicDecay::new(settings.min_file_age, settings.max_file_age, 3);
                self.decay = Some(decay);
                decay
            },
        }
    }
}

/// The expiration date, given that of the server and, if the client asked for one,
/// that of the client: the client's counts only if it lies before the creation.
pub open spec fn chosen_date(
    created: int,
    server: Option<int>,
    client: Option<Option<int>>,
) -> Option<int> {
    match (server, client) {
        (None, _) => None,
        (Some(date), None) => Some(date),
        (Some(_), Some(None)) => None,
        (Some(date), Some(Some(wish))) => Some(
            if wish < created {
                wish
            } else {
                date
            },
        ),
    }
}

/// Whether `client` is an outcome of what the client asked for, if anything.
pub open spec fn requested_date<S: Fn(i128, usize, usize, i32) -> i128>(
    requested: Option<ExpireStrategyView>,
    created: int,
    size: usize,
    limit: usize,
    scale: S,
    client: Option<Option<int>>,
) -> bool {
    match (requested, client) {
        (None, None) => true,
        (Some(strategy), Some(date)) => expires(strategy, created, size, limit, scale, date),
        _ => false,
    }
}

/// Whether `end` is the expiration date of a file of `size` bytes, or nothing where a
/// date is not representable.
pub open spec fn expiration<S: Fn(i128, usize, usize, i32) -> i128>(
    requested: Option<ExpireStrategyView>,
    decay: CubicDecayView,
    limit: usize,
    created: int,
    size: usize,
    scale: S,
    end: Option<int>,
) -> bool {
    exists|server: Option<int>, client: Option<Option<int>>|
        {
            &&& #[trigger] decayed(decay, created, size, limit, scale, server)
            &&& server is Some ==> #[trigger] requested_date(
                requested,
                created,
                size,
                limit,
                scale,
                client,
            )
            &&& end == chosen_date(created, server, client)
        }
}

proof fn expiration_holds<S: Fn(i128, usize, usize, i32) -> i128>(
    requested: Option<ExpireStrategyView>,
    decay: CubicDecayView,
    limit: usize,
    created: int,
    size: usize,
    scale: S,
    server: Option<int>,
    client: Option<Option<int>>,
)
    requires
        decayed(decay, created, size, limit, scale, server),
        server is Some ==> requested_date(requested, created, size, limit, scale, client),
    ensures
        expiration(
            requested,
            decay,
            limit,
            created,
            size,
            scale,
            chosen_date(created, server, client),
        ),
{
    let _ = requested_date(requested, created, size, limit, scale, client);
}

/// Whether the ages of a decay bound the lifespan of a file of this size: they do not end
/// before the creation, they end in order, and `scale` stays between them.
pub open spec fn ages_bind<S: Fn(i128, usize, usize, i32) -> i128>(
    decay: CubicDecayView,
    limit: usize,
    created: int,
    size: usize,
    scale: S,
) -> bool {
    match decay_ends(decay, created) {
        Some((earliest, latest)) => {
            &&& created <= earliest <= latest
            &&& scales_within(scale, earliest - latest, size, limit, decay.power)
        },
        None => false,
    }
}

/// Whether a file expires within the longest age after its creation, whatever the client
/// asked for, and not before the shortest, if the client asked for nothing.
pub open spec fn kept_within_ages(
    decay: CubicDecayView,
    requested: Option<ExpireStrategyView>,
    p: PostDataView,
) -> bool {
    match decay_ends(decay, p.creation_date) {
        Some((earliest, latest)) => {
            &&& p.expiration_date <= latest
            &&& requested is None ==> earliest <= p.expiration_date
        },
        None => false,
    }
}

/// Whether an upload that can be made is kept within the ages, if they bind.
pub open spec fn bounded_by_ages<S: Fn(i128, usize, usize, i32) -> i128>(
    b: BuilderView,
    decay: CubicDecayView,
    limit: usize,
    scale: S,
    post: Result<PostDataView, BuilderError>,
) -> bool {
    match post {
        Ok(p) => ages_bind(decay, limit, p.creation_date, p.file_size, scale)
            ==> kept_within_ages(decay, b.expire_strategy, p),
        Err(_) => true,
    }
}

/// The server's strategy after an upload: one without a name or data settles nothing.
pub open spec fn strategy_after(
    b: BuilderView,
    strategy: Option<CubicDecayView>,
    settings: SettingsView,
) -> Option<CubicDecayView> {
    if b.file_name is Some && b.file_data is Some {
        Some(settled(strategy, settings))
    } else {
        strategy
    }
}

/// The size of a file: as told, or else as found.
pub open spec fn size_of_upload(told: Option<usize>, data: Seq<u8>) -> usize {
    match told {
        Some(size) => size,
        None => data.len() as usize,
    }
}

/// Whether `post` is what becomes of `b` under the server's decay and limit of size,
/// given the instant of its creation, its token and the media type that was detected in
/// its data.
pub open spec fn assembled<S: Fn(i128, usize, usize, i32) -> i128>(
    b: BuilderView,
    decay: CubicDecayView,
    limit: usize,
    created: int,
    token: Seq<u8>,
    detected: Seq<char>,
    scale: S,
    post: Result<PostDataView, BuilderError>,
) -> bool {
    match (b.file_name, b.file_data) {
        (None, _) => post == Err::<PostDataView, BuilderError>(BuilderError::MissingFileName),
        (Some(_), None) => post == Err::<PostDataView, BuilderError>(BuilderError::MissingFileData),
        (Some(name), Some(data)) => {
            let size = size_of_upload(b.file_size, data);
            exists|end: Option<int>|
                {
                    &&& #[trigger] expiration(
                        b.expire_strategy,
                        decay,
                        limit,
                        created,
                        size,
                        scale,
                        end,
                    )
                    &&& post == match (end, media_type(detected)) {
                        (None, _) => Err(BuilderError::OverflowingExpirationSpan(DateOverflow)),
                        (Some(_), None) => Err(BuilderError::MIMEError),
                        (Some(expires), Some(mime)) => Ok(
                            PostDataView {
                                secret: b.secret == Some(true),
                                file_name: sanitised(name, true),
                                file_size: size,
                                file_mime: mime,
                                file_data: data,
                                file_hash: xxh3_128_of(data),
                                nsfw: b.nsfw == Some(true),
                                creation_date: created,
                                expiration_date: expires,
                                uploader_ip: b.uploader_ip,
                                uploader_ua: b.uploader_ua,
                                access_token: token,
                            },
                        ),
                    }
                }
        },
    }
}

impl PostData {
    /// Begins an upload.
    pub fn builder(uploader_ip: SocketAddress, uploader_ua: String) -> (b: PostDataBuilder)
        ensures
            b@ == empty_builder(uploader_ip, uploader_ua@),
    {
        PostDataBuilder::new(uploader_ip, uploader_ua)
    }
}

/// An upload of which nothing is known but who makes it.
pub open spec fn empty_builder(uploader_ip: SocketAddress, uploader_ua: Seq<char>) -> BuilderView {
    BuilderView {
        secret: None,
        file_name: None,
        file_size: None,
        file_data: None,
        content_encoding: None,
        nsfw: None,
        expire_strategy: None,
        uploader_ip,
        uploader_ua,
    }
}

impl PostDataBuilder {
    /// Nothing is known yet but who uploads.
    pub fn new(uploader_ip: SocketAddress, uploader_ua: String) -> (b: Self)
        ensures
            b@ == empty_builder(uploader_ip, uploader_ua@),
    {
        Self {
            secret: None,
            file_name: None,
            file_size: None,
            file_data: None,
            content_encoding: None,
            nsfw: None,
            expire_strategy: None,
            uploader_ip,
            uploader_ua,
        }
    }

    /// Notes whether the file is to have a secret address.
    pub fn with_secret(&mut self, secret: bool) -> (b: &mut Self)
        ensures
            b@ == (BuilderView { secret: Some(secret), ..old(self)@ }),
            final(self)@ == final(b)@,
    {
        self.secret = Some(secret);
        self
    }

    /// Notes the name of the file.
    pub fn with_file_name(&mut self, file_name: String) -> (b: &mut Self)
        ensures
            b@ == (BuilderView { file_name: Some(file_name@), ..old(self)@ }),
            final(self)@ == final(b)@,
    {
        self.file_name = Some(file_name);
        self
    }

    /// Notes the data of the file.
    pub fn with_file_data(&mut self, file_data: Vec<u8>) -> (b: &mut Self)
        ensures
            b@ == (BuilderView { file_data: Some(file_data@), ..old(self)@ }),
            final(self)@ == final(b)@,
    {
        self.file_data = Some(file_data);
        self
    }

    /// Notes the size of the file.
    pub fn with_file_size(&mut self, file_size: usize) -> (b: &mut Self)
        ensures
            b@ == (BuilderView { file_size: Some(file_size), ..old(self)@ }),
            final(self)@ == final(b)@,
    {
        self.file_size = Some(file_size);
        self
    }

    /// Notes the media type that the client names, or none if its text is not one.
    pub fn with_content_type(&mut self, content_type: &str) -> (b: &mut Self)
        ensures
            b@ == (BuilderView { content_encoding: media_type(content_type@), ..old(self)@ }),
            final(self)@ == final(b)@,
    {
        self.content_encoding = parse_media_type(content_type);
        self
    }

    /// Notes whether the file is not safe for work.
    pub fn with_nsfw(&mut self, nsfw: bool) -> (b: &mut Self)
        ensures
            b@ == (BuilderView { nsfw: Some(nsfw), ..old(self)@ }),
            final(self)@ == final(b)@,
    {
        self.nsfw = Some(nsfw);
        self
    }

    /// Notes when the file is to expire.
    pub fn with_expire_strategy(&mut self, strategy: ExpireStrategy) -> (b: &mut Self)
        ensures
            b@ == (BuilderView { expire_strategy: Some(strategy@), ..old(self)@ }),
            final(self)@ == final(b)@,
    {
        self.expire_strategy = Some(strategy);
        self
    }

    /// Makes the upload: created now, under a random token, with the media type that
    /// is detected in its data. The first one settles the server's strategy. `scale` is as in [`CubicDecay::calculate_lifespan`].
    pub fn construct<S: Fn(i128, usize, usize, i32) -> i128>(
        self,
        settings: &Settings,
        strategy: &mut ServerStrategy,
        scale: &S,
    ) -> (post: Result<PostData, BuilderError>)
        requires
            forall|d: i128, s: usize, m: usize, p: i32| call_requires(scale, (d, s, m, p)),
        ensures
            exists|created: int, token: Seq<u8>, detected: Seq<char>|
                {
                    &&& in_time_range(created)
                    &&& token.len() == 32
                    &&& self@.file_data is Some ==> detectable(self@.file_data->0, detected)
                    &&& #[trigger] assembled(
                        self@,
                        settled(old(strategy)@, settings@),
                        settings@.upload_size_limit,
                        created,
                        token,
                        detected,
                        *scale,
                        post_in(post),
                    )
                },
            post is Ok ==> is_safe_name(post->Ok_0@.file_name),
            bounded_by_ages(
                self@,
                settled(old(strategy)@, settings@),
                settings@.upload_size_limit,
                *scale,
                post_in(post),
            ),
            final(strategy)@ == strategy_after(self@, old(strategy)@, settings@),
    {
        let detected = match &self.file_data {
            Some(data) => detect_media_type(data.as_slice()),
            None => String::new(),
        };
        let created = UtcTime::now();
        let token = UserToken::generate();
        self.assemble(settings, strategy, created, token, detected.as_str(), scale)
    }

    /// Makes the upload, given the instant of its creation, its token and the media
    /// type that was detected in its data. `scale` is as in
    /// [`CubicDecay::calculate_lifespan`].
    pub fn assemble<S: Fn(i128, usize, usize, i32) -> i128>(
        self,
        settings: &Settings,
        strategy: &mut ServerStrategy,
        creation_date: UtcTime,
        access_token: UserToken,
        detected: &str,
        scale: &S,
    ) -> (post: Result<PostData, BuilderError>)
        requires
            forall|d: i128, s: usize, m: usize, p: i32| call_requires(scale, (d, s, m, p)),
        ensures
            assembled(
                self@,
                settled(old(strategy)@, settings@),
                settings@.upload_size_limit,
                creation_date@,
                access_token@,
                detected@,
                *scale,
                post_in(post),
            ),
            post is Ok ==> is_safe_name(post->Ok_0@.file_name),
            bounded_by_ages(
                self@,
                settled(old(strategy)@, settings@),
                settings@.upload_size_limit,
                *scale,
                post_in(post),
            ),
            final(strategy)@ == strategy_after(self@, old(strategy)@, settings@),
    {
        let secret: bool = match self.secret {
            Some(secret) => secret,
            None => false,
        };
        let file_name = match &self.file_name {
            Some(name) => sanitize_file_name(name.as_str()),
            None => return Err(BuilderError::MissingFileName),
        };
        let file_data = match self.file_data {
            Some(data) => data,
            None => return Err(BuilderError::MissingFileData),
        };
        let file_size: usize = match self.file_size {
            Some(size) => size,
            None => file_data.len(),
        };
        let limit: usize = settings.upload_size_limit;
        let server_strategy = strategy.get_or_init(settings);
        let server_date = server_strategy.calculate_lifespan(&creation_date, file_size, limit, scale);
        let ghost decay = server_strategy@;
        let ghost created = creation_date@;
        let ghost server = date_in(server_date);
        let ghost requested = self@.expire_strategy;
        let mut expiration_date = match server_date {
            Ok(date) => date,
            Err(e) => {
                proof {
                    expiration_holds(
                        requested,
                        decay,
                        limit,
                        created,
                        file_size,
                        *scale,
                        server,
                        None,
                    );
                }
                return Err(BuilderError::OverflowingExpirationSpan(e));
            },
        };
        let ghost mut client: Option<Option<int>> = None;
        if let Some(strategy) = self.expire_strategy {
            let wish = strategy.calculate_lifespan(&creation_date, file_size, limit, scale);
            proof {
                client = Some(date_in(wish));
            }
            match wish {
                Ok(wish) => {
                    if wish.is_before(&creation_date) {
                        expiration_date = wish;
                    }
                },
                Err(e) => {
                    proof {
                        expiration_holds(
                            requested,
                            decay,
                            limit,
                            created,
                            file_size,
                            *scale,
                            server,
                            client,
                        );
                    }
                    return Err(BuilderError::OverflowingExpirationSpan(e));
                },
            }
        }
        proof {
            expiration_holds(
                requested,
                decay,
                limit,
                created,
                file_size,
                *scale,
                server,
                client,
            );
        }
        let file_hash = XXH3_128Hash::calculate(file_data.as_slice());
        let file_mime = match parse_media_type(detected) {
            Some(mime) => mime,
            None => return Err(BuilderError::MIMEError),
        };
        Ok(
            PostData {
                secret,
                file_name,
                expiration_date,
                file_size,
                file_mime,
                file_hash,
                file_data,
                nsfw: match self.nsfw {
                    Some(nsfw) => nsfw,
                    None => false,
                },
                creation_date,
                uploader_ip: self.uploader_ip,
                uploader_ua: self.uploader_ua,
                access_token,
            },
        )
    }
}

} // verus!
