//! `type = "reddit"` sources: accepted in `sources.toml`, but not fetched yet.
use vstd::prelude::*;
use crate::fetchers::FetchError;
use crate::models::Article;

verus! {

/// A `type = "reddit"` source; `url` holds the subreddit name.
pub struct RedditFetcher {
    pub name: String,
    pub url: String,
    pub topic: String,
}

impl RedditFetcher {
    /// Fetching a Reddit source always fails, naming the source: Reddit
    /// support does not exist yet.
    pub fn fetch(&self) -> (res: Result<Vec<Article>, FetchError>)
        ensures
            res matches Err(FetchError::Unsupported { source_name, url }) && source_name@
                == self.name@ && url@ == self.url@,
    {
        Err(FetchError::Unsupported { source_name: self.name.clone(), url: self.url.clone() })
    }
}

} // verus!
