# recording_analyzer

Verified core of an AWS Lambda function that analyses meeting recordings with
Gemini on Vertex AI (transcript, topics, executive summary, action items,
highlights, title and speaking-time shares).

- `src/` is the library, checked by Verus:
  - `error.rs`: the pipeline's errors, their codes, user messages and descriptions;
  - `models.rs`: request, error-reply and analysis records;
  - `handler.rs`: which reply each failure of a request gets;
  - `vertex.rs`: endpoint settings, the `generateContent` URL, prompt composition;
  - `auth.rs`: service-account credentials, assertion claims, signing key, clock, auth errors;
  - `token.rs`: the access-token cache;
  - `retry.rs`: the retry and back-off decisions for Gemini requests;
  - `storage.rs`: Firebase Storage download URLs to `gs://` URIs (with percent-decoding);
  - `pipeline.rs`: prompts, MIME type by extension, timestamp pieces, grouping by speaker;
  - `text.rs`: character-sequence search used by the above.
- `app/` is the Lambda binary: HTTP calls, environment, JSON (serde), the async
  pipeline, and the floating-point speaking-time figures.
- `tests/` exercise the library on concrete values.
